use vstd::prelude::*;
use rand::RngCore;
use crate::text::{push_char, push_str};

verus! {

/// What a viewer presents when asking to join a session.
pub enum AuthenticationPayload {
    /// A passcode typed by the viewer.
    Password { password: String },
    /// A request that carries no credentials.
    Anonymous,
}

/// Why a viewer was turned away.
#[derive(PartialEq, Eq, Structural, Debug, Clone, Copy)]
pub enum DeclineReason {
    IncorrectPassword,
    NoCredentials,
}

/// Errors when building an authenticator.
#[derive(PartialEq, Eq, Structural, Debug, Clone, Copy)]
pub enum AuthError {
    /// The passcode would be the empty string.
    EmptyPassword,
}

impl AuthError {
    /// The text that reports the error.
    pub fn message(&self) -> (m: String)
        ensures
            *self == AuthError::EmptyPassword ==> m@ == "Password cannot be empty"@,
    {
        match self {
            AuthError::EmptyPassword => {
                let mut m = String::new();
                push_str(&mut m, "Password cannot be empty");
                m
            },
        }
    }
}

/// Decides whether a joining viewer may watch.
pub trait Authenticator {
    /// `None` when the viewer is admitted, `Some(reason)` when turned away.
    fn authenticate(&self, payload: &AuthenticationPayload) -> Option<DeclineReason>;
}

/// Admits exactly the viewers that present the session's passcode.
pub struct PasswordAuthenticator {
    password: String,
}

/// The characters a generated passcode is drawn from: upper-case letters and
/// digits without the easily confused `I`, `O`, `0` and `1`.
pub open spec fn friendly_alphabet() -> Seq<char> {
    seq!['A', 'B', 'C', 'D', 'E', 'F', 'G', 'H', 'J', 'K', 'L', 'M', 'N', 'P', 'Q', 'R',
         'S', 'T', 'U', 'V', 'W', 'X', 'Y', 'Z', '2', '3', '4', '5', '6', '7', '8', '9']
}

/// The alphabet letter that a 32-bit random word selects: its top five bits.
pub open spec fn friendly_char_of(word: u32) -> char {
    friendly_alphabet()[(word >> 27u32) as int]
}

impl PasswordAuthenticator {
    /// The passcode this authenticator checks against.
    pub closed spec fn spec_password(&self) -> Seq<char> {
        self.password@
    }

    /// Builds an authenticator; an empty passcode is refused.
    pub fn new(password: String) -> (res: Result<Self, AuthError>)
        ensures
            password@.len() == 0 ==> res == Err::<Self, AuthError>(AuthError::EmptyPassword),
            password@.len() != 0 ==> (res matches Ok(a) && a.spec_password() == password@),
    {
        if password.as_str().is_empty() {
            return Err(AuthError::EmptyPassword);
        }
        Ok(PasswordAuthenticator { password })
    }


    /// Builds an authenticator with a fresh five-character passcode drawn
    /// from the friendly alphabet.
    pub fn random() -> (res: Result<Self, AuthError>)
        ensures
            res matches Ok(a) && a.spec_password().len() == 5
                && is_friendly(a.spec_password()),
    {
        let password = random_user_friendly_string(5);
        Self::new(password)
    }

    /// A copy of the passcode.
    pub fn password(&self) -> (res: String)
        ensures
            res@ == self.spec_password(),
    {
        self.password.clone()
    }
}

/// Whether every character of `s` belongs to the friendly alphabet.
pub open spec fn is_friendly(s: Seq<char>) -> bool {
    forall|i: int| 0 <= i < s.len() ==> friendly_alphabet().contains(#[trigger] s[i])
}

/// Whether the payload is accepted by an authenticator with passcode `password`:
/// `None` for the matching passcode, otherwise the reason for refusal.
pub open spec fn password_verdict(password: Seq<char>, payload: AuthenticationPayload) -> Option<
    DeclineReason,
> {
    match payload {
        AuthenticationPayload::Password { password: given } => if given@ == password {
            None
        } else {
            Some(DeclineReason::IncorrectPassword)
        },
        AuthenticationPayload::Anonymous => Some(DeclineReason::NoCredentials),
    }
}

impl Authenticator for PasswordAuthenticator {
    fn authenticate(&self, payload: &AuthenticationPayload) -> (res: Option<DeclineReason>)
        ensures
            res == password_verdict(self.spec_password(), *payload),
    {
        match payload {
            AuthenticationPayload::Password { password } => {
                if *password == self.password {
                    None
                } else {
                    Some(DeclineReason::IncorrectPassword)
                }
            },
            AuthenticationPayload::Anonymous => Some(DeclineReason::NoCredentials),
        }
    }
}

/// An authenticator admits a viewer exactly when the viewer presents its
/// passcode; a wrong passcode is refused as incorrect and a request without
/// a passcode as lacking credentials.
pub proof fn law_admits_exactly_its_password(a: PasswordAuthenticator, payload: AuthenticationPayload)
    ensures
        password_verdict(a.spec_password(), payload) is None <==> (payload matches
            AuthenticationPayload::Password { password } && password@ == a.spec_password()),
        (payload matches AuthenticationPayload::Password { password } && password@
            != a.spec_password()) ==> password_verdict(a.spec_password(), payload) == Some(
            DeclineReason::IncorrectPassword,
        ),
        payload is Anonymous ==> password_verdict(a.spec_password(), payload) == Some(
            DeclineReason::NoCredentials,
        ),
{
}

/// A 32-bit word from the thread-local generator of `rand`
/// (`rand::thread_rng().next_u32()`). Nothing is stated of the value: it is
/// chance. The generator panics only when the operating system's entropy
/// source cannot seed it, which no argument can rule out.
#[verifier::external_body]
fn random_word() -> u32 {
    rand::thread_rng().next_u32()
}

/// The friendly-alphabet character selected by the top five bits of `word`.
pub fn friendly_char(word: u32) -> (c: char)
    ensures
        c == friendly_char_of(word),
        friendly_alphabet().contains(c),
{
    let alphabet: [char; 32] = [
        'A', 'B', 'C', 'D', 'E', 'F', 'G', 'H', 'J', 'K', 'L', 'M', 'N', 'P', 'Q', 'R',
        'S', 'T', 'U', 'V', 'W', 'X', 'Y', 'Z', '2', '3', '4', '5', '6', '7', '8', '9',
    ];
    let idx = word >> 27u32;
    assert(word >> 27u32 < 32) by (bit_vector);
    assert(alphabet@ =~= friendly_alphabet());
    alphabet[idx as usize]
}

/// The string whose characters are those that the random words `words`
/// select, one per word, in order.
pub fn friendly_string_from_words(words: &Vec<u32>) -> (s: String)
    ensures
        s@ == words@.map_values(|w: u32| friendly_char_of(w)),
        is_friendly(s@),
{
    let mut s = String::new();
    let mut i: usize = 0;
    while i < words.len()
        invariant
            i <= words@.len(),
            s@ == words@.take(i as int).map_values(|w: u32| friendly_char_of(w)),
            is_friendly(s@),
        decreases words@.len() - i,
    {
        let c = friendly_char(words[i]);
        push_char(&mut s, c);
        i = i + 1;
        assert(words@.take(i as int).map_values(|w: u32| friendly_char_of(w)) =~= words@.take(
            i - 1,
        ).map_values(|w: u32| friendly_char_of(w)).push(friendly_char_of(words@[i - 1])));
    }
    assert(words@.take(i as int) =~= words@);
    s
}

/// A random string of `len` characters from the friendly alphabet: `len`
/// random words are drawn and each selects one character (see
/// `friendly_string_from_words`).
pub fn random_user_friendly_string(len: usize) -> (s: String)
    ensures
        s@.len() == len,
        is_friendly(s@),
        exists|words: Seq<u32>|
            words.len() == len && s@ == words.map_values(|w: u32| friendly_char_of(w)),
{
    let mut words: Vec<u32> = Vec::new();
    let mut i: usize = 0;
    while i < len
        invariant
            i <= len,
            words@.len() == i,
        decreases len - i,
    {
        words.push(random_word());
        i = i + 1;
    }
    let s = friendly_string_from_words(&words);
    assert(s@.len() == len);
    s
}

} // verus!
