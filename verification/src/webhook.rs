//! Payment-webhook signature verification and fulfillment decisions.
//!
//! The signature header has the shape `t=<timestamp>,v1=<sig>,v1=<sig>,...`.
//! Verification parses the header, requires the timestamp to lie within a
//! five-minute replay window around the caller-supplied clock reading, and
//! accepts the request only if some `v1` entry equals the lowercase hex
//! HMAC-SHA-256 of `<timestamp>.<payload>` under the endpoint secret.

use vstd::prelude::*;
use vstd::string::StrSliceExecFns;
use vstd::string::StringSliceAdditionalSpecFns;

use crate::crypto::constant_time_eq;
use crate::crypto::hex_of;
use crate::crypto::hmac_sha256;
use crate::crypto::hmac_sha256_of;
use crate::crypto::to_hex_lower;
use crate::text::parse_i64;
use crate::text::parsed_int;
use crate::text::split_chars;
use crate::text::split_str;
use crate::text::str_eq_chars;

verus! {

broadcast use vstd::string::group_string_axioms;

/// Why a webhook signature was rejected.
#[derive(Debug, Clone, Copy, PartialEq, Eq, Structural)]
pub enum SignatureError {
    /// No `t=` entry in the header.
    MissingTimestamp,
    /// No `v1=` entry in the header.
    MissingSignature,
    /// The `t=` value is not a well-formed integer.
    InvalidTimestamp,
    /// The timestamp lies more than five minutes from the given clock.
    TimestampOutOfWindow,
    /// No `v1` entry matches the expected tag.
    Mismatch,
}

/// A part of the header split at its first `=`: the key and the value,
/// where the value keeps any further `=` signs. `None` when the part holds
/// no `=` at all.
pub open spec fn eq_split(p: Seq<char>) -> Option<(Seq<char>, Seq<char>)>
    decreases p.len(),
{
    if p.len() == 0 {
        None
    } else if p.first() == '=' {
        Some((Seq::empty(), p.drop_first()))
    } else {
        match eq_split(p.drop_first()) {
            Some(kv) => Some((seq![p.first()] + kv.0, kv.1)),
            None => None,
        }
    }
}

proof fn lemma_eq_split_at(p: Seq<char>, i: int)
    requires
        0 <= i < p.len(),
        p[i] == '=',
        forall|j: int| 0 <= j < i ==> p[j] != '=',
    ensures
        eq_split(p) == Some((p.take(i), p.skip(i + 1))),
    decreases i,
{
    if i == 0 {
        assert(p.take(0) =~= Seq::<char>::empty());
        assert(p.skip(1) =~= p.drop_first());
    } else {
        lemma_eq_split_at(p.drop_first(), i - 1);
        assert(seq![p.first()] + p.drop_first().take(i - 1) =~= p.take(i));
        assert(p.drop_first().skip(i) =~= p.skip(i + 1));
    }
}

proof fn lemma_eq_split_none(p: Seq<char>)
    requires
        forall|j: int| 0 <= j < p.len() ==> p[j] != '=',
    ensures
        eq_split(p) is None,
    decreases p.len(),
{
    if p.len() > 0 {
        lemma_eq_split_none(p.drop_first());
    }
}

/// Split a header part at its first `=`, as `splitn(2, '=')` yields it.
fn eq_split_str(p: &str) -> (r: Option<(&str, &str)>)
    ensures
        match r {
            Some(kv) => eq_split(p@) == Some((kv.0@, kv.1@)),
            None => eq_split(p@) is None,
        },
{
    let n = p.unicode_len();
    for i in 0..n
        invariant
            n == p@.len(),
            forall|j: int| 0 <= j < i ==> p@[j] != '=',
    {
        if p.get_char(i) == '=' {
            proof {
                lemma_eq_split_at(p@, i as int);
            }
            return Some((p.substring_char(0, i), p.substring_char(i + 1, n)));
        }
    }
    proof {
        lemma_eq_split_none(p@);
    }
    None
}

/// The timestamp carried by the header parts: the value of the last `t=`
/// entry, if any.
pub open spec fn header_timestamp(parts: Seq<Seq<char>>) -> Option<Seq<char>>
    decreases parts.len(),
{
    if parts.len() == 0 {
        None
    } else {
        match eq_split(parts.last()) {
            Some(kv) => if kv.0 == "t"@ {
                Some(kv.1)
            } else {
                header_timestamp(parts.drop_last())
            },
            None => header_timestamp(parts.drop_last()),
        }
    }
}

/// The `v1` signature values carried by the header parts, in order.
pub open spec fn header_v1_sigs(parts: Seq<Seq<char>>) -> Seq<Seq<char>>
    decreases parts.len(),
{
    if parts.len() == 0 {
        Seq::empty()
    } else {
        match eq_split(parts.last()) {
            Some(kv) => if kv.0 == "v1"@ {
                header_v1_sigs(parts.drop_last()).push(kv.1)
            } else {
                header_v1_sigs(parts.drop_last())
            },
            None => header_v1_sigs(parts.drop_last()),
        }
    }
}

/// The bytes that are authenticated: the timestamp text, a dot, then the
/// raw payload.
pub open spec fn signed_payload(ts: Seq<char>, payload: Seq<u8>) -> Seq<u8> {
    vstd::utf8::encode_utf8(ts) + seq![46u8] + payload
}

/// The hex tag a valid `v1` entry must equal.
pub open spec fn expected_tag(ts: Seq<char>, payload: Seq<u8>, secret: Seq<char>) -> Seq<char> {
    hex_of(hmac_sha256_of(vstd::utf8::encode_utf8(secret), signed_payload(ts, payload)))
}

/// The verification decision, in full: each error names the first check
/// that fails, in the order the checks are made.
pub open spec fn spec_verify_signature(
    payload: Seq<u8>,
    header: Seq<char>,
    secret: Seq<char>,
    now: i64,
) -> Result<(), SignatureError> {
    let parts = split_chars(header, ',');
    let sigs = header_v1_sigs(parts);
    match header_timestamp(parts) {
        None => Err(SignatureError::MissingTimestamp),
        Some(ts) => if sigs.len() == 0 {
            Err(SignatureError::MissingSignature)
        } else {
            match parsed_int(ts) {
                None => Err(SignatureError::InvalidTimestamp),
                Some(t) => if t < i64::MIN || t > i64::MAX {
                    Err(SignatureError::InvalidTimestamp)
                } else if now - t > 300 || t - now > 300 {
                    Err(SignatureError::TimestampOutOfWindow)
                } else if exists|i: int|
                    0 <= i < sigs.len() && sigs[i] == expected_tag(ts, payload, secret) {
                    Ok(())
                } else {
                    Err(SignatureError::Mismatch)
                },
            }
        },
    }
}

/// Verify a webhook signature header against the payload, the endpoint
/// secret and the current Unix time.
pub fn verify_stripe_signature(payload: &[u8], sig_header: &str, secret: &str, now: i64) -> (r:
    Result<(), SignatureError>)
    ensures
        r == spec_verify_signature(payload@, sig_header@, secret@, now),
{
    let parts = split_str(sig_header, ',');
    let ghost parts_dv = parts.deep_view();

    let mut timestamp: Option<String> = None;
    let mut sigs: Vec<String> = Vec::new();
    let np = parts.len();
    assert(parts_dv.take(0) =~= Seq::<Seq<char>>::empty());
    for i in 0..np
        invariant
            np == parts.len(),
            parts_dv == parts.deep_view(),
            parts_dv == split_chars(sig_header@, ','),
            match timestamp {
                Some(t) => header_timestamp(parts_dv.take(i as int)) == Some(t@),
                None => header_timestamp(parts_dv.take(i as int)) is None,
            },
            sigs.deep_view() == header_v1_sigs(parts_dv.take(i as int)),
    {
        let part: &String = &parts[i];
        let ghost pre_sigs = sigs.deep_view();
        proof {
            reveal_strlit("t");
            reveal_strlit("v1");
            assert(parts_dv.take(i + 1).drop_last() =~= parts_dv.take(i as int));
            assert(parts_dv.take(i + 1).last() == parts_dv[i as int]);
            assert(parts_dv[i as int] == parts@[i as int]@);
        }
        match eq_split_str(part.as_str()) {
            Some((key, value)) => {
                if str_eq_chars(key, "t") {
                    timestamp = Some(value.to_owned());
                    proof {
                        reveal_strlit("t");
                        reveal_strlit("v1");
                        assert("t"@.len() == 1);
                        assert("v1"@.len() == 2);
                    }
                } else if str_eq_chars(key, "v1") {
                    sigs.push(value.to_owned());
                    proof {
                        reveal_strlit("t");
                        reveal_strlit("v1");
                        assert("t"@.len() == 1);
                        assert("v1"@.len() == 2);
                        assert(sigs.deep_view() =~= pre_sigs.push(value@));
                    }
                }
            },
            None => {},
        }
    }
    proof {
        assert(parts_dv.take(np as int) =~= parts_dv);
    }

    let ts = match timestamp {
        Some(t) => t,
        None => {
            return Err(SignatureError::MissingTimestamp);
        },
    };
    if sigs.len() == 0 {
        return Err(SignatureError::MissingSignature);
    }

    let t = match parse_i64(ts.as_str()) {
        Some(t) => t,
        None => {
            return Err(SignatureError::InvalidTimestamp);
        },
    };
    let diff: i128 = (now as i128) - (t as i128);
    if diff > 300 || diff < -300 {
        return Err(SignatureError::TimestampOutOfWindow);
    }

    let mut msg = ts.as_str().as_bytes_vec();
    msg.push(46u8);
    let mut payload_vec = vstd::slice::slice_to_vec(payload);
    msg.append(&mut payload_vec);
    proof {
        assert(msg@ =~= signed_payload(ts@, payload@));
    }
    let tag = hmac_sha256(secret.as_bytes(), msg.as_slice());
    let expected = to_hex_lower(tag.as_slice());
    let ghost sigs_dv = sigs.deep_view();

    let ns = sigs.len();
    for i in 0..ns
        invariant
            ns == sigs.len(),
            ns >= 1,
            sigs_dv == sigs.deep_view(),
            sigs_dv == header_v1_sigs(split_chars(sig_header@, ',')),
            header_timestamp(split_chars(sig_header@, ',')) == Some(ts@),
            parsed_int(ts@) == Some(t as int),
            now - t <= 300 && t - now <= 300,
            expected@ == expected_tag(ts@, payload@, secret@),
            forall|j: int| 0 <= j < i ==> sigs_dv[j] != expected@,
    {
        let sig: &String = &sigs[i];
        if constant_time_eq(sig.as_str().as_bytes(), expected.as_str().as_bytes()) {
            proof {
                vstd::utf8::encode_utf8_decode_utf8(sig@);
                vstd::utf8::encode_utf8_decode_utf8(expected@);
                assert(sig@ == expected@);
                assert(sigs_dv[i as int] == expected_tag(ts@, payload@, secret@));
            }
            return Ok(());
        }
    }
    Err(SignatureError::Mismatch)
}

/// Law: an honestly signed header is accepted. A header carrying exactly
/// the timestamp entry and the true tag of the payload verifies whenever
/// the timestamp parses as an `i64` and lies within the replay window.
pub proof fn lemma_honest_signature_verifies(
    payload: Seq<u8>,
    secret: Seq<char>,
    ts: Seq<char>,
    now: i64,
)
    requires
        ({
            &&& parsed_int(ts) matches Some(t)
            &&& i64::MIN <= t <= i64::MAX
            &&& now - t <= 300
            &&& t - now <= 300
        }),
    ensures
        spec_verify_signature(
            payload,
            "t="@ + ts + seq![','] + "v1="@ + expected_tag(ts, payload, secret),
            secret,
            now,
        ) is Ok,
{
    reveal_strlit("t");
    reveal_strlit("v1");
    reveal_strlit("t=");
    reveal_strlit("v1=");
    assert("t="@.len() == 2 && "t="@[0] == 't' && "t="@[1] == '=');
    assert("v1="@.len() == 3 && "v1="@[0] == 'v' && "v1="@[1] == '1' && "v1="@[2] == '=');
    assert("t"@ =~= seq!['t']);
    assert("v1"@ =~= seq!['v', '1']);
    let tag = expected_tag(ts, payload, secret);
    crate::crypto::lemma_hex_of_props(
        hmac_sha256_of(vstd::utf8::encode_utf8(secret), signed_payload(ts, payload)),
    );
    crate::text::lemma_parsed_int_charset(ts);
    let s1 = "t="@ + ts;
    let s2 = "v1="@ + tag;
    let header = s1 + seq![','] + s2;
    assert forall|i: int| 0 <= i < s1.len() implies s1[i] != ',' by {
        if i >= 2 {
            assert(s1[i] == ts[i - 2]);
        }
    }
    assert forall|i: int| 0 <= i < s2.len() implies s2[i] != ',' by {
        if i >= 3 {
            assert(s2[i] == tag[i - 3]);
            assert(crate::crypto::is_lower_hex_char(tag[i - 3]));
        }
    }
    crate::text::lemma_split_chars_cut(s1, s2, ',');
    crate::text::lemma_split_chars_whole(s2, ',');
    let parts = split_chars(header, ',');
    assert(parts =~= seq![s1, s2]);
    lemma_eq_split_at(s1, 1);
    assert(s1.take(1) =~= "t"@);
    assert(s1.skip(2) =~= ts);
    lemma_eq_split_at(s2, 2);
    assert(s2.take(2) =~= "v1"@);
    assert(s2.skip(3) =~= tag);
    assert(parts.drop_last() =~= seq![s1]);
    assert(parts.last() == s2);
    assert(seq![s1].drop_last() =~= Seq::<Seq<char>>::empty());
    assert(seq![s1].last() == s1);
    assert(header_timestamp(Seq::<Seq<char>>::empty()) is None);
    assert(header_timestamp(seq![s1]) == Some(ts));
    assert(header_timestamp(parts) == Some(ts));
    assert(header_v1_sigs(Seq::<Seq<char>>::empty()) =~= Seq::<Seq<char>>::empty());
    assert(header_v1_sigs(seq![s1]) =~= Seq::<Seq<char>>::empty());
    let sigs = header_v1_sigs(parts);
    assert(sigs =~= header_v1_sigs(seq![s1]).push(tag));
    assert(sigs =~= seq![tag]);
    assert(exists|i: int|
        0 <= i < sigs.len() && sigs[i] == expected_tag(ts, payload, secret)) by {
        assert(sigs[0] == expected_tag(ts, payload, secret));
    }
    assert(spec_verify_signature(payload, header, secret, now) is Ok);
    assert(("t="@ + ts + seq![','] + "v1="@ + tag) =~= header);
}

/// What a verified webhook event asks the store to do.
#[derive(Debug)]
pub enum WebhookAction {
    /// Event types other than a completed checkout, and completed checkouts
    /// whose metadata is incomplete, are acknowledged and ignored.
    Ignore,
    /// Record a completed order for this user and product.
    Fulfill { user_id: String, product_id: String, order_status: String },
}

/// Decide what a webhook event requires. Only a `checkout.session.completed`
/// event carrying both a user and a product id leads to fulfillment, with
/// the order recorded as `COMPLETED`; everything else is ignored.
pub fn webhook_plan(event_type: &str, user_id: Option<String>, product_id: Option<String>) -> (r:
    WebhookAction)
    ensures
        match r {
            WebhookAction::Fulfill { user_id: u, product_id: p, order_status: st } => {
                &&& event_type@ == "checkout.session.completed"@
                &&& user_id matches Some(u0) && u0@ == u@
                &&& product_id matches Some(p0) && p0@ == p@
                &&& st@ == "COMPLETED"@
            },
            WebhookAction::Ignore => event_type@ != "checkout.session.completed"@ || user_id
                is None || product_id is None,
        },
{
    if !str_eq_chars(event_type, "checkout.session.completed") {
        return WebhookAction::Ignore;
    }
    match (user_id, product_id) {
        (Some(u), Some(p)) => WebhookAction::Fulfill {
            user_id: u,
            product_id: p,
            order_status: String::from_str("COMPLETED"),
        },
        _ => WebhookAction::Ignore,
    }
}

/// Whether a purchased product's category grants the membership role: only
/// the `membership` category does.
pub fn membership_grants_admin(category: Option<&str>) -> (r: bool)
    ensures
        r == (category matches Some(c) && c@ == "membership"@),
{
    match category {
        Some(c) => str_eq_chars(c, "membership"),
        None => false,
    }
}

} // verus!
