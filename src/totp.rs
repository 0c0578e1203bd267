//! The TOTP facade: a secret, a time step and a skew, turned into codes at points in time.
use crate::base32::{
    base32_decoded, decode_base32, is_base32_nopad, lemma_decoded_len_bound,
    lemma_foreign_symbol_rejected,
};
use crate::hotp::{counter_at, derive_counter, hotp, hotp_code};
use data_encoding::DecodeError;
use vstd::prelude::*;

verus! {

/// A point in time, in whole seconds measured from the Unix epoch.
#[derive(Clone, Copy, Debug, PartialEq, Eq, Structural)]
pub enum UnixTime {
    /// At or after the epoch, by this many whole seconds.
    Since(u64),
    /// Before the epoch, by this many whole seconds (rounded down).
    Before(u64),
}

/// Why no code could be derived.
#[derive(Debug, PartialEq, Eq)]
pub enum OtpError {
    /// The time point lies this many whole seconds before the epoch.
    Time(u64),
    /// The secret is not valid unpadded base32.
    Decode(DecodeError),
    /// The digest could not be truncated.
    Encode(crate::hotp::EncodeError),
}

/// A TOTP configuration: a base32 secret, the seconds per counter step, and a skew in
/// seconds added to each time point.
pub struct Totp {
    secret: String,
    time_step: u64,
    skew: i64,
}

/// What a `Totp` holds, as mathematical values.
pub struct TotpView {
    pub secret: Seq<char>,
    pub time_step: u64,
    pub skew: i64,
}

impl TotpView {
    /// A configuration that a `Totp` can hold: a nonzero step and a secret short enough
    /// for the decoder.
    pub open spec fn wf(self) -> bool {
        self.time_step > 0 && self.secret.len() <= usize::MAX / 32
    }

    /// The code at `secs` seconds after the epoch, for a valid secret.
    pub open spec fn code_at(self, secs: u64) -> int {
        hotp_code(base32_decoded(self.secret), counter_at(secs, self.skew, self.time_step) as u64)
    }

    /// What `at` returns for a time point: a time error before the epoch, else a decode
    /// error for an invalid secret, else the code.
    pub open spec fn at_spec(self, time: UnixTime, r: Result<u32, OtpError>) -> bool {
        match time {
            UnixTime::Before(s) => r == Err::<u32, OtpError>(OtpError::Time(s)),
            UnixTime::Since(s) => if is_base32_nopad(self.secret) {
                r == Ok::<u32, OtpError>(self.code_at(s) as u32)
            } else {
                r is Err && r->Err_0 is Decode
            },
        }
    }

    /// What `verify_at` returns for `candidate` at a time point.
    pub open spec fn verify_spec(
        self,
        candidate: u32,
        time: UnixTime,
        r: Result<bool, OtpError>,
    ) -> bool {
        match time {
            UnixTime::Before(s) => r == Err::<bool, OtpError>(OtpError::Time(s)),
            UnixTime::Since(s) => if is_base32_nopad(self.secret) {
                r == Ok::<bool, OtpError>(candidate == self.code_at(s))
            } else {
                r is Err && r->Err_0 is Decode
            },
        }
    }
}

impl View for Totp {
    type V = TotpView;

    closed spec fn view(&self) -> TotpView {
        TotpView { secret: self.secret@, time_step: self.time_step, skew: self.skew }
    }
}

/// Relies on `std::time::SystemTime::now`, measured against `UNIX_EPOCH`: whatever the
/// clock reads, so nothing is promised of it.
#[verifier::external_body]
fn current_time() -> (r: UnixTime) {
    match std::time::SystemTime::now().duration_since(std::time::UNIX_EPOCH) {
        Ok(d) => UnixTime::Since(d.as_secs()),
        Err(e) => UnixTime::Before(e.duration().as_secs()),
    }
}

impl Totp {
    #[verifier::type_invariant]
    spec fn inv(&self) -> bool {
        self@.wf()
    }

    /// A configuration; the secret is checked only when a code is asked for.
    pub fn new(secret: String, time_step: u64, skew: i64) -> (r: Self)
        requires
            time_step > 0,
            secret@.len() <= usize::MAX / 32,
        ensures
            r@ == (TotpView { secret: secret@, time_step, skew }),
    {
        Totp { secret, time_step, skew }
    }

    /// The code at the given time point.
    pub fn at(&self, time: UnixTime) -> (r: Result<u32, OtpError>)
        ensures
            self@.at_spec(time, r),
    {
        proof {
            use_type_invariant(self);
        }
        let secs = match time {
            UnixTime::Since(s) => s,
            UnixTime::Before(s) => return Err(OtpError::Time(s)),
        };
        let counter = derive_counter(secs, self.skew, self.time_step);
        let key = match decode_base32(self.secret.as_str()) {
            Ok(k) => k,
            Err(e) => return Err(OtpError::Decode(e)),
        };
        proof {
            lemma_decoded_len_bound(self.secret@.len());
        }
        Ok(hotp(key.as_slice(), counter))
    }

    /// The code at the clock's current time.
    pub fn now(&self) -> (r: Result<u32, OtpError>)
        ensures
            exists|t: UnixTime| self@.at_spec(t, r),
    {
        let t = current_time();
        self.at(t)
    }

    /// Whether `candidate` is the code at the given time point.
    pub fn verify_at(&self, candidate: u32, time: UnixTime) -> (r: Result<bool, OtpError>)
        ensures
            self@.verify_spec(candidate, time, r),
    {
        match self.at(time) {
            Ok(code) => Ok(candidate == code),
            Err(e) => Err(e),
        }
    }

    /// Whether `candidate` is the code at the clock's current time.
    pub fn verify(&self, candidate: u32) -> (r: Result<bool, OtpError>)
        ensures
            exists|t: UnixTime| self@.verify_spec(candidate, t, r),
    {
        let t = current_time();
        self.verify_at(candidate, t)
    }
}

/// For a fixed configuration and time point the code is fixed: two results of `at` agree
/// on success and on the code, and both fail alike otherwise.
pub proof fn lemma_at_deterministic(
    v: TotpView,
    time: UnixTime,
    r1: Result<u32, OtpError>,
    r2: Result<u32, OtpError>,
)
    requires
        v.at_spec(time, r1),
        v.at_spec(time, r2),
    ensures
        r1 is Ok ==> r1 == r2,
        r1 is Ok <==> r2 is Ok,
        r1 is Err ==> (r1->Err_0 is Time <==> r2->Err_0 is Time),
        r1 is Err ==> (r1->Err_0 is Decode <==> r2->Err_0 is Decode),
{
}

/// Time points at least one step apart have strictly increasing counters, as long as the
/// skewed times stay within `0 .. 2^64`.
pub proof fn lemma_counter_monotonic(t1: u64, t2: u64, skew: i64, time_step: u64)
    requires
        time_step > 0,
        t2 - t1 >= time_step,
        0 <= t1 + skew,
        t2 + skew < 0x1_0000_0000_0000_0000,
    ensures
        counter_at(t2, skew, time_step) > counter_at(t1, skew, time_step),
{
    let a1 = t1 + skew;
    let a2 = t2 + skew;
    let step = time_step as int;
    assert(a1 % 0x1_0000_0000_0000_0000 == a1);
    assert(a2 % 0x1_0000_0000_0000_0000 == a2);
    assert(a2 / step > a1 / step) by (nonlinear_arith)
        requires
            step > 0,
            a1 >= 0,
            a2 - a1 >= step,
    {
        assert(a1 == step * (a1 / step) + a1 % step);
        assert(a2 == step * (a2 / step) + a2 % step);
    }
}

/// Two time points whose skewed times fall in the same step window give the same code.
pub proof fn lemma_same_window_same_code(
    v: TotpView,
    t1: u64,
    t2: u64,
    r1: Result<u32, OtpError>,
    r2: Result<u32, OtpError>,
)
    requires
        v.wf(),
        0 <= t1 + v.skew < 0x1_0000_0000_0000_0000,
        0 <= t2 + v.skew < 0x1_0000_0000_0000_0000,
        (t1 + v.skew) / (v.time_step as int) == (t2 + v.skew) / (v.time_step as int),
        v.at_spec(UnixTime::Since(t1), r1),
        v.at_spec(UnixTime::Since(t2), r2),
    ensures
        v.code_at(t1) == v.code_at(t2),
        r1 == r2 || (r1 is Err && r2 is Err),
{
    assert((t1 + v.skew) % 0x1_0000_0000_0000_0000 == t1 + v.skew);
    assert((t2 + v.skew) % 0x1_0000_0000_0000_0000 == t2 + v.skew);
}

/// `verify` at a time point says yes exactly when the candidate is the code at that point,
/// says no to every other candidate, and fails exactly when `at` fails.
pub proof fn lemma_verify_matches_code(
    v: TotpView,
    candidate: u32,
    time: UnixTime,
    code: Result<u32, OtpError>,
    verdict: Result<bool, OtpError>,
)
    requires
        v.at_spec(time, code),
        v.verify_spec(candidate, time, verdict),
    ensures
        verdict == Ok::<bool, OtpError>(true) <==> code == Ok::<u32, OtpError>(candidate),
        code is Ok && code->Ok_0 != candidate ==> verdict == Ok::<bool, OtpError>(false),
        verdict is Err <==> code is Err,
{
}

/// A secret holding a lower-case letter, `0`, `1`, `8`, `9` or `=` makes every time point
/// at or after the epoch fail with a decode error.
pub proof fn lemma_foreign_symbol_fails(v: TotpView, i: int, secs: u64, r: Result<u32, OtpError>)
    requires
        0 <= i < v.secret.len(),
        ('a' <= v.secret[i] && v.secret[i] <= 'z') || v.secret[i] == '0' || v.secret[i] == '1'
            || v.secret[i] == '8' || v.secret[i] == '9' || v.secret[i] == '=',
        v.at_spec(UnixTime::Since(secs), r),
    ensures
        r is Err && r->Err_0 is Decode,
{
    lemma_foreign_symbol_rejected(v.secret, i);
}

/// A skew of `k` at time `t` gives what no skew gives at time `t + k`.
pub proof fn lemma_skew_shift(secret: Seq<char>, time_step: u64, k: i64, t: u64)
    requires
        time_step > 0,
        0 <= t + k < 0x1_0000_0000_0000_0000,
    ensures
        (TotpView { secret, time_step, skew: k }).code_at(t) == (TotpView {
            secret,
            time_step,
            skew: 0,
        }).code_at((t + k) as u64),
        forall|r: Result<u32, OtpError>|
            (TotpView { secret, time_step, skew: k }).at_spec(UnixTime::Since(t), r) == (TotpView {
                secret,
                time_step,
                skew: 0,
            }).at_spec(UnixTime::Since((t + k) as u64), r),
{
    assert((t + k) % 0x1_0000_0000_0000_0000 == t + k);
    assert(((t + k) as u64) as int == t + k);
}

} // verus!
