use vstd::prelude::*;

use crate::code::{code_at, code_of};
use crate::codec::{
    decode_secret_key, decoded, decodes, encodable, encode_secret_key, encoded, encoded_len, Base,
};
use crate::error::AuthError;

verus! {

#[verifier::external_type_specification]
#[verifier::external_body]
pub struct ExRandError(rand::Error);

/// Relies on `rand::rngs::OsRng`'s `try_fill_bytes`: it fills the buffer in place
/// from the operating system's secure source, or reports why it could not.
#[verifier::external_body]
fn fill_from_os(buf: &mut Vec<u8>) -> (r: Result<(), rand::Error>)
    ensures
        final(buf)@.len() == old(buf)@.len(),
{
    rand::RngCore::try_fill_bytes(&mut rand::rngs::OsRng, buf.as_mut_slice())
}

/// A secret in its text form.
#[derive(Debug, Clone)]
pub struct AuthKey {
    pub key: String,
}

/// Holds the configuration parameters for TOTP authenticators
///
/// `secret_bits` hold the length of the secret key before encoding
/// `code_digits` holds the length of the passcodes that are to be generated
/// `window_timestep_size` holds the step size in seconds in which to proceed when validating a passcode within a time window
/// `window_size` holds the absolute size of the time window
/// `base` holds whether the secret key is encoded using Base32 or Base64
#[derive(Clone, Copy, Debug)]
pub struct AuthConfig {
    pub secret_bits: u32,
    pub code_digits: u32,
    pub window_timestep_size: u32,
    pub window_size: u32,
    pub base: Base,
}

/// Integer division of `a` by a positive `d`, truncating toward zero.
pub open spec fn div_toward_zero(a: int, d: int) -> int {
    if a >= 0 {
        a / d
    } else {
        -((-a) / d)
    }
}

impl AuthConfig {
    /// Whole bytes of secret, an odd window, at most nine digits, a step of at
    /// least one second, and a secret short enough for the encoder.
    pub open spec fn wf(&self) -> bool {
        &&& self.secret_bits % 8 == 0
        &&& self.window_size % 2 == 1
        &&& self.code_digits <= 9
        &&& self.window_timestep_size >= 1
        &&& encodable(self.secret_len())
    }

    /// The number of bytes of a generated secret.
    pub open spec fn secret_len(&self) -> nat {
        (self.secret_bits / 8) as nat
    }

    /// The first step offset checked around the current time step.
    pub open spec fn window_lo(&self) -> int {
        -((self.window_size - 1) / 2)
    }

    /// The first step offset past those checked.
    pub open spec fn window_hi(&self) -> int {
        (self.window_size / 2) as int
    }

    /// The time step that holds the Unix time `time`.
    pub open spec fn time_step(&self, time: i64) -> i64 {
        div_toward_zero(time as int, self.window_timestep_size as int) as i64
    }

    /// The code of `key` at time step `counter`.
    pub open spec fn code_at(&self, key: Seq<u8>, counter: i64) -> int {
        code_of(key, counter, self.code_digits as nat)
    }

    /// The time step `off` steps away from the one that holds `time`, the
    /// 64-bit step counter wrapping around.
    pub open spec fn window_step(&self, time: i64, off: int) -> i64 {
        self.time_step(time).wrapping_add(off as i64)
    }

    /// `code` is the code of `key` at one of the steps of the window around `time`.
    pub open spec fn accepts(&self, key: Seq<u8>, time: i64, code: u32) -> bool {
        exists|off: int|
            self.window_lo() <= off < self.window_hi() && #[trigger] self.code_at(
                key,
                self.window_step(time, off),
            ) == code
    }

    /// Checks the configuration's invariants.
    pub fn is_valid(&self) -> (r: bool)
        ensures
            r == self.wf(),
    {
        self.secret_bits % 8 == 0 && self.window_size % 2 == 1 && self.code_digits <= 9
            && self.window_timestep_size >= 1 && (self.secret_bits / 8) as usize <= usize::MAX
            / 512
    }
}

/// Base struct for a TOTP Authenticator.
///
/// Holds its `AuthConfig`, is constructed using the `new`
/// method
pub struct TOTPAuthenticator {
    pub config: AuthConfig,
}

/// The settings of Google Authenticator: 80-bit secrets in Base32, six
/// digits, 30-second steps, a window of three.
pub open spec fn default_config() -> AuthConfig {
    AuthConfig {
        secret_bits: 80,
        code_digits: 6,
        window_timestep_size: 30,
        window_size: 3,
        base: Base::BASE32,
    }
}

/// Creates a new Authenticator using the default settings used by Google Authenticator
pub fn with_defaults() -> (r: TOTPAuthenticator)
    ensures
        r.config == default_config(),
        r.config.wf(),
{
    TOTPAuthenticator {
        config: AuthConfig {
            secret_bits: 80,
            code_digits: 6,
            window_timestep_size: 30,
            window_size: 3,
            base: Base::BASE32,
        },
    }
}

/// Creates a new Authenticator based on a provided configuration, refusing
/// one that breaks the configuration's invariants
pub fn new(auth_config: AuthConfig) -> (r: Result<TOTPAuthenticator, AuthError>)
    ensures
        r is Ok <==> auth_config.wf(),
        r is Ok ==> r->Ok_0.config == auth_config,
        r is Err ==> r->Err_0 == AuthError::InvalidConfig,
{
    if auth_config.is_valid() {
        Ok(TOTPAuthenticator { config: auth_config })
    } else {
        Err(AuthError::InvalidConfig)
    }
}

impl TOTPAuthenticator {
    /// Creates a new secret from the operating system's secure random source,
    /// `secret_bits / 8` bytes, in its text form.
    pub fn create_credentials(&self) -> (r: Result<AuthKey, AuthError>)
        requires
            self.config.wf(),
        ensures
            r is Ok ==> exists|b: Seq<u8>|
                b.len() == self.config.secret_len() && r->Ok_0.key@ == encoded(
                    self.config.base,
                    b,
                ),
            r is Ok ==> r->Ok_0.key@.len() == encoded_len(
                self.config.base,
                self.config.secret_len(),
            ),
            r is Err ==> r->Err_0 == AuthError::RandomSourceUnavailable,
    {
        let n: usize = (self.config.secret_bits / 8) as usize;
        let mut buffer: Vec<u8> = vec![0u8; n];
        match fill_from_os(&mut buffer) {
            Ok(()) => Ok(self.key_from_secret(buffer)),
            Err(_) => Err(AuthError::RandomSourceUnavailable),
        }
    }

    /// The credentials for the raw secret `secret`.
    pub fn key_from_secret(&self, secret: Vec<u8>) -> (r: AuthKey)
        requires
            encodable(secret@.len()),
        ensures
            r.key@ == encoded(self.config.base, secret@),
            r.key@.len() == encoded_len(self.config.base, secret@.len()),
    {
        AuthKey { key: encode_secret_key(self.config.base, secret) }
    }

    /// Validates a passcode against a given secret at a given Unix time: it
    /// matches if it is the code at one of the steps from `-((w - 1) / 2)` up
    /// to, not including, `w / 2` around the time's step, `w` being the window
    /// size. A secret that does not decode is an error, not a mismatch.
    pub fn validate_code(&self, key: AuthKey, time: i64, code: u32) -> (r: Result<bool, AuthError>)
        requires
            self.config.wf(),
        ensures
            match decoded(self.config.base, key.key@) {
                Some(v) => r == Ok::<bool, AuthError>(self.config.accepts(v, time, code)),
                None => r == Err::<bool, AuthError>(AuthError::MalformedKey),
            },
    {
        let ghost key_text = key.key@;
        let key_base = match decode_secret_key(self.config.base, key.key) {
            Ok(v) => v,
            Err(e) => {
                return Err(e);
            },
        };
        // the step that holds `time`, the quotient truncated toward zero
        let step: i64 = self.config.window_timestep_size as i64;
        let time_window: i64 = if time >= 0 {
            time / step
        } else {
            let magnitude: u64 = (0i128 - time as i128) as u64;
            let q: u64 = magnitude / (step as u64);
            (0i128 - q as i128) as i64
        };
        assert(time_window == self.config.time_step(time));
        let w: i64 = self.config.window_size as i64;
        let hi: i64 = w / 2;
        let mut i: i64 = -((w - 1) / 2);
        while i < hi
            invariant
                self.config.wf(),
                decoded(self.config.base, key_text) == Some(key_base@),
                key_text == key.key@,
                w == self.config.window_size,
                hi == self.config.window_hi(),
                self.config.window_lo() <= i <= hi,
                time_window == self.config.time_step(time),
                forall|off: int|
                    self.config.window_lo() <= off < i ==> #[trigger] self.config.code_at(
                        key_base@,
                        self.config.window_step(time, off),
                    ) != code,
            decreases hi - i,
        {
            if self.calculate_code(key_base.as_slice(), time_window.wrapping_add(i)) == code {
                assert(self.config.code_at(key_base@, self.config.window_step(time, i as int))
                    == code);
                return Ok(true);
            }
            i = i + 1;
        }
        Ok(false)
    }

    /// Calculates the passcode of a raw secret at a given time step.
    pub fn calculate_code(&self, key: &[u8], time: i64) -> (r: u32)
        requires
            self.config.wf(),
        ensures
            r == self.config.code_at(key@, time),
    {
        code_at(key, time, self.config.code_digits)
    }
}

/// The code is a function of the secret, the time step and the configuration
/// alone: two calculations from the same three give the same code.
pub proof fn lemma_code_deterministic(
    config: AuthConfig,
    key: Seq<u8>,
    step: i64,
    r1: u32,
    r2: u32,
)
    requires
        config.wf(),
        r1 == config.code_at(key, step),
        r2 == config.code_at(key, step),
    ensures
        r1 == r2,
{
}

/// With 30-second steps and a window of three, the code of time 0 is accepted
/// at every time from 1 to 59 seconds.
pub proof fn lemma_window_inclusion(config: AuthConfig, key: Seq<u8>, time: i64, code: u32)
    requires
        config.wf(),
        config.window_timestep_size == 30,
        config.window_size == 3,
        1 <= time < 60,
        code == config.code_at(key, 0),
    ensures
        config.accepts(key, time, code),
{
    let tw = config.time_step(time);
    assert(0 <= tw <= 1);
    assert(config.window_step(time, -tw) == 0);
    assert(config.code_at(key, config.window_step(time, -tw)) == code);
}

/// With 30-second steps and a window of three, step 0 lies outside the window
/// of time 61: a code is accepted there exactly when it is the code of step 1
/// or of step 2.
pub proof fn lemma_window_exclusion(config: AuthConfig, key: Seq<u8>, code: u32)
    requires
        config.wf(),
        config.window_timestep_size == 30,
        config.window_size == 3,
    ensures
        config.accepts(key, 61, code) <==> (code == config.code_at(key, 1) || code == config.code_at(
            key,
            2,
        )),
{
    assert(config.time_step(61) == 2);
    assert(config.window_step(61, -1) == 1);
    assert(config.window_step(61, 0) == 2);
    if code == config.code_at(key, 1) {
        assert(config.code_at(key, config.window_step(61, -1)) == code);
    }
    if code == config.code_at(key, 2) {
        assert(config.code_at(key, config.window_step(61, 0)) == code);
    }
}

/// The Base32 and the Base64 text of the same raw secret decode to the same
/// bytes, which give the same code at every time step.
pub proof fn lemma_cross_base(
    config: AuthConfig,
    secret: Seq<u8>,
    step: i64,
    r32: Result<Vec<u8>, AuthError>,
    r64: Result<Vec<u8>, AuthError>,
)
    requires
        decodes(Base::BASE32, encoded(Base::BASE32, secret), r32),
        decodes(Base::BASE64, encoded(Base::BASE64, secret), r64),
    ensures
        r32 is Ok && r64 is Ok,
        r32->Ok_0@ == r64->Ok_0@,
        config.code_at(r32->Ok_0@, step) == config.code_at(r64->Ok_0@, step),
{
}

} // verus!
