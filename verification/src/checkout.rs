//! Checkout-session preparation: the money amount in cents, and the
//! request validations and redirect URLs around it.
//!
//! The payment processor wants a unit amount in cents; the store keeps a
//! decimal string. The conversion takes the whole part, the first two
//! fractional digits padded to two, and combines them with saturating
//! arithmetic.

use vstd::prelude::*;
use vstd::string::StrSliceExecFns;
use vstd::string::StringExecFns;

use crate::text::lemma_split_chars_len;
use crate::text::parse_i64;
use crate::text::parsed_int;
use crate::text::split_chars;
use crate::text::split_str;
use crate::text::trim_of;
use crate::text::trim_str;

verus! {

broadcast use vstd::string::group_string_axioms;

/// A request to open a checkout session.
#[derive(Debug)]
pub struct CheckoutRequest {
    pub user_id: String,
    pub email: String,
    pub product_id: String,
    pub is_subscription: bool,
    pub locale: Option<String>,
}

/// The answer: a session URL, or an error.
#[derive(Debug)]
pub struct CheckoutResponse {
    pub url: Option<String>,
    pub error: Option<String>,
}

/// Everything the payment processor needs to open a session.
#[derive(Debug)]
pub struct CreateCheckoutSessionParams {
    pub customer_email: String,
    pub user_id: String,
    pub product_id: String,
    pub product_name: String,
    pub unit_amount: i64,
    pub success_url: String,
    pub cancel_url: String,
    pub is_subscription: bool,
}

/// An integer clamped into `i64`, as saturating arithmetic leaves it.
pub open spec fn clamp_i64(v: int) -> int {
    if v > i64::MAX {
        i64::MAX as int
    } else if v < i64::MIN {
        i64::MIN as int
    } else {
        v
    }
}

/// The first two fractional characters, padded on the right with zeros to
/// exactly two.
pub open spec fn padded_cents(frac: Seq<char>) -> Seq<char> {
    if frac.len() == 0 {
        seq!['0', '0']
    } else if frac.len() == 1 {
        frac.push('0')
    } else {
        frac.take(2)
    }
}

/// The unit amount in cents a decimal string stands for: the whole part
/// times one hundred plus the two-digit cent part, each read as std reads
/// integers, combined with saturating arithmetic; `None` when either part
/// fails to parse.
pub open spec fn spec_unit_amount(s: Seq<char>) -> Option<i64> {
    let parts = split_chars(s, '.');
    let whole = parts[0];
    let frac = if parts.len() >= 2 {
        parts[1]
    } else {
        seq!['0']
    };
    match parsed_int(whole) {
        Some(w) => if i64::MIN <= w <= i64::MAX {
            match parsed_int(padded_cents(frac)) {
                Some(c) => if i64::MIN <= c <= i64::MAX {
                    Some(clamp_i64(clamp_i64(w * 100) + c) as i64)
                } else {
                    None
                },
                None => None,
            }
        } else {
            None
        },
        None => None,
    }
}

/// Read a decimal price string as a unit amount in cents.
pub fn unit_amount_from_decimal(price: &str) -> (r: Option<i64>)
    ensures
        r == spec_unit_amount(price@),
{
    let parts = split_str(price, '.');
    proof {
        lemma_split_chars_len(price@, '.');
        assert(parts.deep_view()[0] == parts@[0]@);
    }
    let whole: &String = &parts[0];
    let w = match parse_i64(whole.as_str()) {
        Some(w) => w,
        None => {
            return None;
        },
    };
    let frac: String = if parts.len() >= 2 {
        proof {
            assert(parts.deep_view()[1] == parts@[1]@);
        }
        parts[1].clone()
    } else {
        proof {
            reveal_strlit("0");
            assert("0"@ =~= seq!['0']);
        }
        String::from_str("0")
    };
    let fl = frac.as_str().unicode_len();
    let take_n: usize = if fl < 2 {
        fl
    } else {
        2
    };
    let mut cents_s = frac.as_str().substring_char(0, take_n).to_owned();
    if take_n == 0 {
        crate::crypto::push_char(&mut cents_s, '0');
        crate::crypto::push_char(&mut cents_s, '0');
    } else if take_n == 1 {
        crate::crypto::push_char(&mut cents_s, '0');
    }
    proof {
        if fl >= 2 {
            assert(frac@.subrange(0, 2) =~= frac@.take(2));
        } else if fl == 1 {
            assert(frac@.subrange(0, 1) =~= frac@);
        } else {
            assert(frac@.subrange(0, 0) =~= Seq::<char>::empty());
        }
        assert(cents_s@ =~= padded_cents(frac@));
    }
    let c = match parse_i64(cents_s.as_str()) {
        Some(c) => c,
        None => {
            return None;
        },
    };
    let prod_wide: i128 = (w as i128) * 100;
    let prod: i64 = if prod_wide > i64::MAX as i128 {
        i64::MAX
    } else if prod_wide < i64::MIN as i128 {
        i64::MIN
    } else {
        prod_wide as i64
    };
    let sum_wide: i128 = (prod as i128) + (c as i128);
    let total: i64 = if sum_wide > i64::MAX as i128 {
        i64::MAX
    } else if sum_wide < i64::MIN as i128 {
        i64::MIN
    } else {
        sum_wide as i64
    };
    Some(total)
}

/// The unit amount for a price, with the fallback the checkout flow uses
/// when the price cannot be read.
pub fn unit_amount_or_default(price: &str) -> (r: i64)
    ensures
        r == match spec_unit_amount(price@) {
            Some(v) => v,
            None => 1000i64,
        },
{
    match unit_amount_from_decimal(price) {
        Some(v) => v,
        None => 1000,
    }
}

/// Whether a checkout request names a customer: the address must not be
/// blank.
pub fn checkout_email_ok(email: &str) -> (r: bool)
    ensures
        r == (trim_of(email@).len() != 0),
{
    trim_str(email).unicode_len() != 0
}

/// Where the shop sends the customer back after payment: the success and
/// cancel URLs for a base URL and locale.
pub fn shop_redirect_urls(base_url: &str, locale: &str) -> (r: (String, String))
    ensures
        r.0@ == base_url@ + "/"@ + locale@ + "/shop?success=true"@,
        r.1@ == base_url@ + "/"@ + locale@ + "/shop?canceled=true"@,
{
    let success = base_url.to_owned().concat("/").concat(locale).concat("/shop?success=true");
    let cancel = base_url.to_owned().concat("/").concat(locale).concat("/shop?canceled=true");
    (success, cancel)
}

} // verus!
