//! Accounts decoded from backup lines, and TOTP code generation for them.

use vstd::prelude::*;
use vstd::pervasive::unreached;
use vstd::utf8::encode_utf8;
use vstd::string::StrSliceExecFns;

use crate::text::{trim_vec, sub_vec, bytes_eq, percent_decode_vec, utf8_to_string, find_byte};
use crate::text::lemma_find_from;
use crate::digits::parse_u64;
use crate::uri::{
    AccountView,
    DecodeError,
    Field,
    spec_decode,
    scheme_prefix_vec,
    issuer_key_vec,
    secret_key_vec,
    period_key_vec,
    query_get,
    lemma_valid_after_ascii,
    lemma_valid_take_ascii,
};
use crate::totp::{
    is_base32,
    base32_decoded,
    totp_code,
    code_chars,
    is_digit_char,
    totp_from_base32,
    totp_generate,
    format_code,
};

verus! {

/// Why a code could not be generated for an account.
#[derive(Clone, Copy, Debug, PartialEq, Eq, Structural)]
pub enum CodeError {
    /// The account's secret is not valid base32 text.
    InvalidSecret,
    /// The system clock could not give a time since the epoch.
    ClockError,
}

/// One enrolled one-time-password credential, decoded from a backup line.
#[derive(Debug)]
pub struct Account {
    username: Option<String>,
    issuer: String,
    secret: String,
    period: u64,
}

impl View for Account {
    type V = AccountView;

    closed spec fn view(&self) -> AccountView {
        AccountView {
            username: match self.username {
                Some(u) => Some(u@),
                None => None,
            },
            issuer: self.issuer@,
            secret: self.secret@,
            period: self.period,
        }
    }
}

impl Clone for Account {
    /// A clone holds the same fields.
    fn clone(&self) -> (r: Account)
        ensures
            r@ == self@,
    {
        proof {
            use_type_invariant(self);
        }
        let username = match &self.username {
            Some(u) => Some(u.clone()),
            None => None,
        };
        Account {
            username,
            issuer: self.issuer.clone(),
            secret: self.secret.clone(),
            period: self.period,
        }
    }
}

impl Account {
    /// The time-step is always positive, so a timestamp can be divided by it.
    #[verifier::type_invariant]
    spec fn positive_period(self) -> bool {
        self.period >= 1
    }

    /// Decodes one backup line of the form `otpauth://totp/<label>?<query>`,
    /// exactly as [`spec_decode`] describes on the line's UTF-8 bytes.
    pub fn new(uri: &str) -> (r: Result<Account, DecodeError>)
        ensures
            r is Ok <==> spec_decode(encode_utf8(uri@)) is Ok,
            r is Ok ==> r->Ok_0@ == spec_decode(encode_utf8(uri@))->Ok_0,
            r is Err ==> r->Err_0 == spec_decode(encode_utf8(uri@))->Err_0,
    {
        let bytes = uri.as_bytes_vec();
        let ghost s = bytes@;
        let t = trim_vec(&bytes);
        if t.len() < 15 {
            return Err(DecodeError::Syntax);
        }
        let pfx = sub_vec(&t, 0, 15);
        let expected = scheme_prefix_vec();
        if !bytes_eq(&pfx, &expected) {
            return Err(DecodeError::Syntax);
        }
        let rest = sub_vec(&t, 15, t.len());
        proof {
            assert(rest@ =~= crate::uri::uri_rest(s));
        }
        let qpos = find_byte(&rest, 0x3f, 0);
        let raw_label = sub_vec(&rest, 0, qpos);
        proof {
            assert(raw_label@ =~= crate::uri::uri_raw_label(s));
        }
        let raw_q = if qpos < rest.len() {
            sub_vec(&rest, qpos + 1, rest.len())
        } else {
            Vec::new()
        };
        proof {
            assert(raw_q@ =~= crate::uri::uri_query(s));
        }
        let label = percent_decode_vec(&raw_label);
        match utf8_to_string(&label) {
            None => {
                return Err(DecodeError::Encoding);
            },
            Some(_) => {},
        }
        let iv = match query_get(&raw_q, &issuer_key_vec()) {
            None => {
                return Err(DecodeError::MissingField(Field::Issuer));
            },
            Some(x) => x,
        };
        let issuer_bytes = percent_decode_vec(&iv);
        let issuer = match utf8_to_string(&issuer_bytes) {
            None => {
                return Err(DecodeError::Encoding);
            },
            Some(x) => x,
        };
        let sv = match query_get(&raw_q, &secret_key_vec()) {
            None => {
                return Err(DecodeError::MissingField(Field::Secret));
            },
            Some(x) => x,
        };
        let secret_bytes = percent_decode_vec(&sv);
        let secret = match utf8_to_string(&secret_bytes) {
            None => {
                return Err(DecodeError::Encoding);
            },
            Some(x) => x,
        };
        let pv = match query_get(&raw_q, &period_key_vec()) {
            None => {
                return Err(DecodeError::MissingField(Field::Period));
            },
            Some(x) => x,
        };
        let period_bytes = percent_decode_vec(&pv);
        let period = match parse_u64(&period_bytes) {
            None => {
                return Err(DecodeError::InvalidPeriod);
            },
            Some(p) => p,
        };
        if period == 0 {
            return Err(DecodeError::InvalidPeriod);
        }
        let c = find_byte(&label, 0x3a, 0);
        let username: Option<String> = if c < label.len() {
            proof {
                lemma_find_from(label@, 0x3a, 0);
                lemma_valid_after_ascii(label@, c as int);
            }
            let after = sub_vec(&label, c + 1, label.len());
            let qd = find_byte(&after, 0x3f, 0);
            proof {
                lemma_find_from(after@, 0x3f, 0);
                lemma_valid_take_ascii(after@, qd as int);
            }
            let ub = sub_vec(&after, 0, qd);
            match utf8_to_string(&ub) {
                Some(u) => Some(u),
                None => unreached(),
            }
        } else {
            None
        };
        let account = Account { username, issuer, secret, period };
        proof {
            assert(account@ =~= spec_decode(s)->Ok_0);
        }
        Ok(account)
    }

    /// Generates the TOTP code of this account at the given timestamp: the
    /// HMAC-SHA1 code of the base32-decoded secret, rendered as exactly six
    /// decimal digits.  Fails exactly when the secret is not base32 text.
    pub fn generate_code(&self, now: u64) -> (r: Result<String, CodeError>)
        ensures
            r is Ok <==> is_base32(encode_utf8(self@.secret)),
            r is Ok ==> r->Ok_0@ == code_chars(
                totp_code(base32_decoded(encode_utf8(self@.secret)), self@.period, now),
            ),
            r is Ok ==> r->Ok_0@.len() == 6 && (forall|i: int|
                0 <= i < r->Ok_0@.len() ==> is_digit_char(#[trigger] r->Ok_0@[i])),
            r is Err ==> r->Err_0 == CodeError::InvalidSecret,
    {
        match totp_from_base32(self.secret.as_str()) {
            None => Err(CodeError::InvalidSecret),
            Some(t) => {
                proof {
                    use_type_invariant(self);
                }
                let code = totp_generate(&t, self.period, now);
                Ok(format_code(code))
            },
        }
    }

    /// The username, when the backup line's label carried one.
    pub fn username(&self) -> (r: Option<&String>)
        ensures
            r is Some <==> self@.username is Some,
            r is Some ==> r->0@ == self@.username->0,
    {
        self.username.as_ref()
    }

    /// The issuer named in the backup line's query.
    pub fn issuer(&self) -> (r: &String)
        ensures
            r@ == self@.issuer,
    {
        &self.issuer
    }

    /// The base32-encoded secret, kept as text until a code is generated.
    pub fn secret(&self) -> (r: &String)
        ensures
            r@ == self@.secret,
    {
        &self.secret
    }

    /// The time-step length in seconds; always positive.
    pub fn period(&self) -> (r: u64)
        ensures
            r == self@.period,
            r >= 1,
    {
        proof {
            use_type_invariant(self);
        }
        self.period
    }
}

} // verus!
