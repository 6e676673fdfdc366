//! A wrapper for a secret string: every display path shows a mask of the
//! same length, and the real text is handed out only by `reveal_secret`.

use vstd::prelude::*;
use vstd::string::*;
use crate::clock::now_utc;

verus! {

/// The character that stands for each character of a secret on display.
pub const MASK_CHAR: char = '*';

/// Whether a value must be masked when it is displayed.
#[derive(Clone, Copy, Debug, PartialEq, Eq, Structural)]
pub enum Sensitivity {
    Secured,
    Unsecured,
}

/// A point in time: whole seconds since 1970-01-01T00:00:00Z, and the
/// nanoseconds past that second.
#[derive(Clone, Copy, Debug, PartialEq, Eq, Structural)]
pub struct Timestamp {
    pub secs: i64,
    pub nanos: u32,
}

/// What a `MaskedValue` holds, as mathematical values.
pub struct MaskedModel {
    pub raw: Seq<char>,
    pub created_at: Timestamp,
    pub sensitivity: Sensitivity,
}

/// The mask of `raw`: one `MASK_CHAR` for each of its characters.
pub open spec fn mask(raw: Seq<char>) -> Seq<char> {
    Seq::new(raw.len(), |i: int| MASK_CHAR)
}

/// The value that `construct_at` builds.
pub open spec fn constructed(raw: Seq<char>, sensitivity: Sensitivity, at: Timestamp) -> MaskedModel {
    MaskedModel { raw, created_at: at, sensitivity }
}

/// What `display` shows of a value: the mask of a secured value, the text
/// itself of an unsecured one.
pub open spec fn displayed(v: MaskedModel) -> Seq<char> {
    match v.sensitivity {
        Sensitivity::Secured => mask(v.raw),
        Sensitivity::Unsecured => v.raw,
    }
}

/// What `reveal_secret` hands out: the text as it was given.
pub open spec fn revealed(v: MaskedModel) -> Seq<char> {
    v.raw
}

/// A sensitive string with the time it entered the system. The fields are
/// private and the type has no `Debug`, so the text leaves only through
/// `reveal_secret`, or through `display` where the value is unsecured.
pub struct MaskedValue {
    raw: String,
    created_at: Timestamp,
    sensitivity: Sensitivity,
}

impl View for MaskedValue {
    type V = MaskedModel;

    closed spec fn view(&self) -> MaskedModel {
        MaskedModel { raw: self.raw@, created_at: self.created_at, sensitivity: self.sensitivity }
    }
}

impl Clone for MaskedValue {
    fn clone(&self) -> (copy: MaskedValue)
        ensures
            copy == *self,
    {
        MaskedValue {
            raw: self.raw.clone(),
            created_at: self.created_at,
            sensitivity: self.sensitivity,
        }
    }
}

/// Builds the mask of `raw` one character at a time.
fn masked_text(raw: &str) -> (masked: String)
    ensures
        masked@ == mask(raw@),
{
    let n: usize = raw.unicode_len();
    let mut masked = String::new();
    let mut i: usize = 0;
    while i < n
        invariant
            i <= n,
            n == raw@.len(),
            masked@ == Seq::new(i as nat, |j: int| MASK_CHAR),
        decreases n - i,
    {
        proof {
            reveal_strlit("*");
        }
        masked.append("*");
        i += 1;
    }
    masked
}

impl MaskedValue {
    /// Wraps `raw` with the given flag and stamps it with the current time.
    /// The text and the flag are kept as given; of the time only its form
    /// is known.
    pub fn construct(raw: String, sensitivity: Sensitivity) -> (v: MaskedValue)
        ensures
            v@.raw == raw@,
            v@.sensitivity == sensitivity,
            v@.created_at.nanos < 1_000_000_000,
            v@ == constructed(raw@, sensitivity, v@.created_at),
    {
        let created_at = now_utc();
        Self::construct_at(raw, sensitivity, created_at)
    }

    /// Wraps `raw` with the given flag and creation time.
    pub fn construct_at(raw: String, sensitivity: Sensitivity, created_at: Timestamp) -> (v: MaskedValue)
        ensures
            v@ == constructed(raw@, sensitivity, created_at),
    {
        MaskedValue { raw, created_at, sensitivity }
    }

    /// Whether the value is flagged as sensitive.
    pub fn is_secured(&self) -> (secured: bool)
        ensures
            secured == (self@.sensitivity == Sensitivity::Secured),
    {
        match self.sensitivity {
            Sensitivity::Secured => true,
            Sensitivity::Unsecured => false,
        }
    }

    /// The time recorded when the value was made.
    pub fn created_at(&self) -> (at: Timestamp)
        ensures
            at == self@.created_at,
    {
        self.created_at
    }

    /// The text for logs and screens: a secured value shows one `MASK_CHAR`
    /// for each character of the secret. An unsecured value shows its text
    /// as it is; that is a choice of policy, made here and in `displayed`.
    /// Either way the text shown is as long as the text held, and the value
    /// itself is left as it is.
    pub fn display(&self) -> (shown: String)
        ensures
            shown@ == displayed(self@),
            shown@.len() == self@.raw.len(),
    {
        match self.sensitivity {
            Sensitivity::Secured => masked_text(self.raw.as_str()),
            Sensitivity::Unsecured => self.raw.clone(),
        }
    }

    /// The text as it was given to the constructor.
    pub fn reveal_secret(&self) -> (raw: &str)
        ensures
            raw@ == revealed(self@),
    {
        self.raw.as_str()
    }
}

/// A secured value is displayed as a text as long as its secret and made of
/// `MASK_CHAR` alone, whatever the secret and its creation time, and
/// `reveal_secret` still hands out the secret unchanged.
pub proof fn lemma_secured_display_is_mask(raw: Seq<char>, at: Timestamp)
    ensures
        displayed(constructed(raw, Sensitivity::Secured, at)).len() == raw.len(),
        forall|i: int|
            0 <= i < raw.len() ==> #[trigger] displayed(
                constructed(raw, Sensitivity::Secured, at),
            )[i] == MASK_CHAR,
        revealed(constructed(raw, Sensitivity::Secured, at)) == raw,
{
}

/// Revealing a freshly constructed value gives back the text it was
/// constructed from, the empty text included, whatever the flag.
pub proof fn lemma_reveal_after_construct(raw: Seq<char>, sensitivity: Sensitivity, at: Timestamp)
    ensures
        revealed(constructed(raw, sensitivity, at)) == raw,
{
}

} // verus!
