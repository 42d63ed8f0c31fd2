//! Mail configuration and the sign-in mail's content.
//!
//! SMTP delivery runs outside this crate; what is decided here is how the
//! configuration values resolve (defaults, the port number, the required
//! credentials) and the exact subject and body of the magic-link mail.

use vstd::prelude::*;
use vstd::string::StrSliceExecFns;
use vstd::string::StringExecFns;

use crate::text::parse_u16;
use crate::text::parsed_uint;
use crate::text::str_eq_chars;

verus! {

broadcast use vstd::string::group_string_axioms;

/// The SMTP settings mail is sent with.
#[derive(Debug)]
pub struct EmailConfig {
    pub smtp_host: String,
    pub smtp_port: u16,
    pub smtp_user: String,
    pub smtp_pass: String,
    pub from_email: String,
    pub from_name: String,
}

/// One outgoing mail, as the delivery API takes it.
#[derive(Debug)]
pub struct EmailParams {
    pub from: String,
    pub to: String,
    pub subject: String,
    pub html: String,
}

/// The port a configured value resolves to: 587 when unset, unreadable or
/// out of range.
pub fn smtp_port_of(value: Option<String>) -> (r: u16)
    ensures
        r == match value {
            None => 587u16,
            Some(s) => match parsed_uint(s@) {
                Some(n) => if n <= u16::MAX {
                    n as u16
                } else {
                    587u16
                },
                None => 587u16,
            },
        },
{
    match value {
        Some(s) => match parse_u16(s.as_str()) {
            Some(p) => p,
            None => 587,
        },
        None => 587,
    }
}

impl EmailConfig {
    /// Resolve the configuration from the raw setting values: host, port,
    /// sender address and sender name fall back to defaults, while the
    /// credentials are required.
    pub fn from_values(
        host: Option<String>,
        port: Option<String>,
        user: Option<String>,
        pass: Option<String>,
        from_email: Option<String>,
        from_name: Option<String>,
    ) -> (r: Result<EmailConfig, String>)
        ensures
            match r {
                Ok(c) => {
                    &&& user matches Some(u) && c.smtp_user@ == u@
                    &&& pass matches Some(p) && c.smtp_pass@ == p@
                    &&& c.smtp_host@ == match host {
                        Some(h) => h@,
                        None => "smtp.gmail.com"@,
                    }
                    &&& c.smtp_port == match port {
                        None => 587u16,
                        Some(s) => match parsed_uint(s@) {
                            Some(n) => if n <= u16::MAX {
                                n as u16
                            } else {
                                587u16
                            },
                            None => 587u16,
                        },
                    }
                    &&& c.from_email@ == match from_email {
                        Some(e) => e@,
                        None => "noreply@example.com"@,
                    }
                    &&& c.from_name@ == match from_name {
                        Some(n) => n@,
                        None => "Midnight Archives"@,
                    }
                },
                Err(e) => {
                    &&& (user is None || pass is None)
                    &&& e@ == (if user is None {
                        "SMTP_USER not set"@
                    } else {
                        "SMTP_PASS not set"@
                    })
                },
            },
    {
        let smtp_port = smtp_port_of(port);
        let smtp_user = match user {
            Some(u) => u,
            None => {
                return Err(String::from_str("SMTP_USER not set"));
            },
        };
        let smtp_pass = match pass {
            Some(p) => p,
            None => {
                return Err(String::from_str("SMTP_PASS not set"));
            },
        };
        let smtp_host = match host {
            Some(h) => h,
            None => String::from_str("smtp.gmail.com"),
        };
        let from_email = match from_email {
            Some(e) => e,
            None => String::from_str("noreply@example.com"),
        };
        let from_name = match from_name {
            Some(n) => n,
            None => String::from_str("Midnight Archives"),
        };
        Ok(EmailConfig { smtp_host, smtp_port, smtp_user, smtp_pass, from_email, from_name })
    }
}

/// The magic-link mail's HTML body, as a function of the spliced texts.
pub open spec fn magic_body_of(
    title: Seq<char>,
    greeting: Seq<char>,
    instruction: Seq<char>,
    url: Seq<char>,
    button_text: Seq<char>,
    expiry_notice: Seq<char>,
    ignore_notice: Seq<char>,
) -> Seq<char> {
    "<!DOCTYPE html>\n<html>\n<head>\n  <meta charset=\"utf-8\">\n  <meta name=\"viewport\" content=\"width=device-width, initial-scale=1.0\">\n</head>\n<body style=\"font-family: 'Georgia', serif; background-color: #f4f1ea; margin: 0; padding: 40px 20px;\">\n  <div style=\"max-width: 480px; margin: 0 auto; background: #fff; border: 1px solid #e5e2db; border-radius: 8px; padding: 40px;\">\n    <h1 style=\"font-size: 24px; color: #1c1917; margin: 0 0 24px; font-weight: normal;\">"@
        + title
        + "</h1>\n    <p style=\"color: #44403c; line-height: 1.6; margin: 0 0 16px;\">"@
        + greeting
        + "</p>\n    <p style=\"color: #44403c; line-height: 1.6; margin: 0 0 32px;\">"@
        + instruction + "</p>\n    <a href=\""@ + url
        + "\" style=\"display: inline-block; background: #1c1917; color: #fff; padding: 14px 28px; text-decoration: none; border-radius: 6px; font-size: 14px;\">"@
        + button_text
        + "</a>\n    <p style=\"color: #78716c; font-size: 13px; margin: 32px 0 8px;\">"@
        + expiry_notice + "</p>\n    <p style=\"color: #a8a29e; font-size: 12px; margin: 0;\">"@
        + ignore_notice + "</p>\n  </div>\n</body>\n</html>"@
}

fn magic_body_build(
    title: &str,
    greeting: &str,
    instruction: &str,
    url: &str,
    button_text: &str,
    expiry_notice: &str,
    ignore_notice: &str,
) -> (r: String)
    ensures
        r@ == magic_body_of(
            title@,
            greeting@,
            instruction@,
            url@,
            button_text@,
            expiry_notice@,
            ignore_notice@,
        ),
{
    String::from_str(
        "<!DOCTYPE html>\n<html>\n<head>\n  <meta charset=\"utf-8\">\n  <meta name=\"viewport\" content=\"width=device-width, initial-scale=1.0\">\n</head>\n<body style=\"font-family: 'Georgia', serif; background-color: #f4f1ea; margin: 0; padding: 40px 20px;\">\n  <div style=\"max-width: 480px; margin: 0 auto; background: #fff; border: 1px solid #e5e2db; border-radius: 8px; padding: 40px;\">\n    <h1 style=\"font-size: 24px; color: #1c1917; margin: 0 0 24px; font-weight: normal;\">",
    ).concat(title).concat(
        "</h1>\n    <p style=\"color: #44403c; line-height: 1.6; margin: 0 0 16px;\">",
    ).concat(greeting).concat(
        "</p>\n    <p style=\"color: #44403c; line-height: 1.6; margin: 0 0 32px;\">",
    ).concat(instruction).concat("</p>\n    <a href=\"").concat(url).concat(
        "\" style=\"display: inline-block; background: #1c1917; color: #fff; padding: 14px 28px; text-decoration: none; border-radius: 6px; font-size: 14px;\">",
    ).concat(button_text).concat(
        "</a>\n    <p style=\"color: #78716c; font-size: 13px; margin: 32px 0 8px;\">",
    ).concat(expiry_notice).concat(
        "</p>\n    <p style=\"color: #a8a29e; font-size: 12px; margin: 0;\">",
    ).concat(ignore_notice).concat("</p>\n  </div>\n</body>\n</html>")
}

/// The magic-link mail: its subject and HTML body for a locale. Korean
/// text for the `ko` locale, English for every other.
pub fn magic_link_template(magic_link_url: &str, locale: &str) -> (r: (String, String))
    ensures
        ({
            let is_ko = locale@ == "ko"@;
            &&& r.0@ == (if is_ko {
                "심야 서고 로그인 링크"@
            } else {
                "Sign in to Midnight Archives"@
            })
            &&& r.1@ == magic_body_of(
                if is_ko {
                    "심야 서고"@
                } else {
                    "Midnight Archives"@
                },
                if is_ko {
                    "안녕하세요, 서고지기님."@
                } else {
                    "Hello, dear visitor."@
                },
                if is_ko {
                    "아래 버튼을 클릭하여 로그인하세요."@
                } else {
                    "Click the button below to sign in."@
                },
                magic_link_url@,
                if is_ko {
                    "로그인하기"@
                } else {
                    "Sign In"@
                },
                if is_ko {
                    "이 링크는 24시간 후 만료됩니다."@
                } else {
                    "This link expires in 24 hours."@
                },
                if is_ko {
                    "로그인을 요청하지 않으셨다면 이 이메일을 무시하세요."@
                } else {
                    "If you didn't request this, please ignore this email."@
                },
            )
        }),
{
    let is_ko = str_eq_chars(locale, "ko");
    let subject = if is_ko {
        "심야 서고 로그인 링크"
    } else {
        "Sign in to Midnight Archives"
    };
    let title = if is_ko {
        "심야 서고"
    } else {
        "Midnight Archives"
    };
    let greeting = if is_ko {
        "안녕하세요, 서고지기님."
    } else {
        "Hello, dear visitor."
    };
    let instruction = if is_ko {
        "아래 버튼을 클릭하여 로그인하세요."
    } else {
        "Click the button below to sign in."
    };
    let button_text = if is_ko {
        "로그인하기"
    } else {
        "Sign In"
    };
    let expiry_notice = if is_ko {
        "이 링크는 24시간 후 만료됩니다."
    } else {
        "This link expires in 24 hours."
    };
    let ignore_notice = if is_ko {
        "로그인을 요청하지 않으셨다면 이 이메일을 무시하세요."
    } else {
        "If you didn't request this, please ignore this email."
    };
    let body = magic_body_build(
        title,
        greeting,
        instruction,
        magic_link_url,
        button_text,
        expiry_notice,
        ignore_notice,
    );
    (subject.to_owned(), body)
}

} // verus!
