//! Windows resolution core: name to security identifier, identifier to
//! profile path.
//!
//! The sequencing here — size-probed buffer fetches, fixed-order cleanup on
//! success and failure paths, a once-retried lazy runtime initialization —
//! is the intricate part of home-directory resolution, and it is what this
//! module verifies.  Each operation is modelled as an explicit step machine:
//! a platform driver performs one operating-system call per step and hands
//! the outcome back as an event, while every decision (which status means
//! "not found", which means failure, what must still be freed) is made by
//! verified code.  Each machine keeps an account of the manual allocations
//! it has asked for, and a finished machine is proved to have released every
//! one of them.
//!
//! Text crossing the boundary is UTF-16; encoding and decoding go through
//! the `widestring` crate, against the specification [`utf16_of`].

use vstd::prelude::*;
use vstd::string::*;

use crate::contains_nul;
use crate::has_nul;

verus! {

/// The error type of the Windows resolution core.
///
/// Absence of a matching account or profile is not an error; it is reported
/// as `None` inside a successful result.
#[derive(Clone, Copy, Debug, PartialEq, Eq, Structural)]
pub enum GetHomeError {
    /// A non-success status from an operating-system call, carrying the raw
    /// status code for diagnostics.
    WindowsError(u32),
    /// Returned text was not valid UTF-16.
    Utf16Error,
    /// The username holds an embedded null and cannot be represented as the
    /// wide C string the lookup call requires.
    ContainsNul,
    /// A response violated its assumed shape: a pointer that should never
    /// be null was null, or a field carried an unexpected variant tag.
    NullPointerResult,
}

/// Status: no mapping between account names and security identifiers.
pub const STATUS_NONE_MAPPED: u32 = 0x8007_0534;

/// Status: the data area passed to the call was too small; expected by the
/// size-probing call and a signal to allocate and call again.
pub const STATUS_INSUFFICIENT_BUFFER: u32 = 0x8007_007A;

/// Status: unexpected failure, used when a probed size comes back zero.
pub const STATUS_UNEXPECTED: u32 = 0x8000_FFFF;

/// Status: a buffer allocation failed.
pub const STATUS_OUT_OF_MEMORY: u32 = 0x8007_000E;

/// Status: the shared component runtime was not initialized on this thread.
pub const STATUS_NOT_INITIALIZED: u32 = 0x8004_01F0;

/// Status: invalid argument; the known-folder call answers this for an
/// unmapped folder category, so it is treated as "not found".
pub const STATUS_INVALID_ARGUMENT: u32 = 0x8007_0057;

/// The UTF-16 encoding of one character: code points below `0x10000` are a
/// single code unit, the rest a surrogate pair.
pub open spec fn utf16_of_char(c: char) -> Seq<u16> {
    let v = c as u32;
    if v < 0x10000 {
        seq![v as u16]
    } else {
        seq![
            (0xD800 + ((v - 0x10000) / 0x400)) as u16,
            (0xDC00 + ((v - 0x10000) % 0x400)) as u16,
        ]
    }
}

/// The UTF-16 encoding of a character sequence.
pub open spec fn utf16_of(s: Seq<char>) -> Seq<u16>
    decreases s.len(),
{
    if s.len() == 0 {
        Seq::<u16>::empty()
    } else {
        utf16_of_char(s[0]) + utf16_of(s.drop_first())
    }
}

/// The encoding of one character determines the character: a single code
/// unit is never in the surrogate range, a pair's leading unit always is,
/// and within each form the code point is recovered exactly.
proof fn lemma_utf16_char_injective(c: char, d: char)
    requires
        utf16_of_char(c) == utf16_of_char(d),
    ensures
        c == d,
{
    vstd::utf8::char_is_scalar(c);
    vstd::utf8::char_is_scalar(d);
    let vc = c as u32;
    let vd = d as u32;
    if vc < 0x10000 && vd < 0x10000 {
        assert(utf16_of_char(c)[0] == vc as u16);
        assert(utf16_of_char(d)[0] == vd as u16);
        assert(vc as u16 == vd as u16);
        assert(vc < 0x10000 ==> vc as u16 == vc) by (bit_vector);
        assert(vd < 0x10000 ==> vd as u16 == vd) by (bit_vector);
        assert(vc == vd);
        vstd::utf8::char_u32_cast(c, vc);
        vstd::utf8::char_u32_cast(d, vd);
    } else if vc >= 0x10000 && vd >= 0x10000 {
        let xc = vc - 0x10000;
        let xd = vd - 0x10000;
        vstd::arithmetic::div_mod::lemma_multiply_divide_lt(xc, 0x400, 0x400);
        vstd::arithmetic::div_mod::lemma_multiply_divide_lt(xd, 0x400, 0x400);
        vstd::arithmetic::div_mod::lemma_mod_division_less_than_divisor(xc, 0x400);
        vstd::arithmetic::div_mod::lemma_mod_division_less_than_divisor(xd, 0x400);
        assert(utf16_of_char(c)[0] == utf16_of_char(d)[0]);
        assert(utf16_of_char(c)[1] == utf16_of_char(d)[1]);
        assert(xc / 0x400 == xd / 0x400);
        assert(xc % 0x400 == xd % 0x400);
        vstd::arithmetic::div_mod::lemma_fundamental_div_mod(xc, 0x400);
        vstd::arithmetic::div_mod::lemma_fundamental_div_mod(xd, 0x400);
        assert(vc == vd);
        vstd::utf8::char_u32_cast(c, vc);
        vstd::utf8::char_u32_cast(d, vd);
    } else {
        // One encoding is a single unit, the other a pair: the sequences
        // cannot be equal, so this case cannot arise.
        assert(utf16_of_char(c).len() == utf16_of_char(d).len());
        assert(false);
    }
}

/// UTF-16 encoding is injective: two texts with the same encoding are the
/// same text.  Hence whatever [`decode_wide`]'s contract identifies by its
/// encoding — a converted identifier, a decoded path — is unique: a decoded
/// string is exactly the text whose code units were handed over.
pub proof fn lemma_utf16_injective(a: Seq<char>, b: Seq<char>)
    requires
        utf16_of(a) == utf16_of(b),
    ensures
        a == b,
    decreases a.len(),
{
    if a.len() == 0 && b.len() == 0 {
        assert(a =~= b);
    } else if a.len() == 0 {
        assert(utf16_of(b) == utf16_of_char(b[0]) + utf16_of(b.drop_first()));
        assert(utf16_of(b).len() >= utf16_of_char(b[0]).len());
        assert(false);
    } else if b.len() == 0 {
        assert(utf16_of(a) == utf16_of_char(a[0]) + utf16_of(a.drop_first()));
        assert(utf16_of(a).len() >= utf16_of_char(a[0]).len());
        assert(false);
    } else {
        let c = a[0];
        let d = b[0];
        vstd::utf8::char_is_scalar(c);
        vstd::utf8::char_is_scalar(d);
        assert(utf16_of(a) == utf16_of_char(c) + utf16_of(a.drop_first()));
        assert(utf16_of(b) == utf16_of_char(d) + utf16_of(b.drop_first()));
        if utf16_of_char(c).len() != utf16_of_char(d).len() {
            // A single unit on one side faces a pair's leading surrogate on
            // the other; a character's own unit is never in the surrogate
            // range, so the first units would differ.
            assert(utf16_of(a)[0] == utf16_of(b)[0]);
            if utf16_of_char(c).len() == 1 {
                let xd = (d as u32) - 0x10000;
                vstd::arithmetic::div_mod::lemma_multiply_divide_lt(xd, 0x400, 0x400);
                assert(utf16_of(b)[0] == (0xD800 + (xd / 0x400)) as u16);
                assert(false);
            } else {
                let xc = (c as u32) - 0x10000;
                vstd::arithmetic::div_mod::lemma_multiply_divide_lt(xc, 0x400, 0x400);
                assert(utf16_of(a)[0] == (0xD800 + (xc / 0x400)) as u16);
                assert(false);
            }
        }
        let width = utf16_of_char(c).len();
        assert(utf16_of_char(c) =~= utf16_of_char(d)) by {
            assert forall|i: int| 0 <= i < width implies utf16_of_char(c)[i]
                == utf16_of_char(d)[i] by {
                assert(utf16_of(a)[i] == utf16_of_char(c)[i]);
                assert(utf16_of(b)[i] == utf16_of_char(d)[i]);
            }
        }
        lemma_utf16_char_injective(c, d);
        let tail_a = utf16_of(a.drop_first());
        let tail_b = utf16_of(b.drop_first());
        assert(tail_a =~= tail_b) by {
            assert(tail_a.len() == tail_b.len());
            assert forall|i: int| 0 <= i < tail_a.len() implies tail_a[i] == tail_b[i] by {
                assert(utf16_of(a)[width + i] == tail_a[i]);
                assert(utf16_of(b)[width + i] == tail_b[i]);
            }
        }
        lemma_utf16_injective(a.drop_first(), b.drop_first());
        assert(a.len() == b.len());
        assert forall|i: int| 0 <= i < a.len() implies a[i] == b[i] by {
            if i > 0 {
                assert(a.drop_first()[i - 1] == a[i]);
                assert(b.drop_first()[i - 1] == b[i]);
            }
        }
        assert(a =~= b);
    }
}

/// Relies on `widestring::U16CString::from_str`: encodes the text as UTF-16,
/// checking for interior nul values — which the caller has already ruled out
/// — and hands the code units back without a terminator.
#[verifier::external_body]
fn encode_wide(s: &str) -> (r: Vec<u16>)
    requires
        !has_nul(s@),
    ensures
        r@ == utf16_of(s@),
{
    match widestring::U16CString::from_str(s) {
        Ok(wide) => wide.into_vec(),
        Err(_) => Vec::new(),
    }
}

/// Relies on `widestring::U16Str::to_string`: decodes UTF-16 code units,
/// refusing invalid data.  A decoded string re-encodes to exactly the given
/// units, and decoding succeeds precisely when the units are the UTF-16
/// encoding of some character sequence.
#[verifier::external_body]
fn decode_wide(units: &[u16]) -> (r: Result<String, ()>)
    ensures
        r matches Ok(s) ==> utf16_of(s@) == units@,
        (exists|s: Seq<char>| utf16_of(s) == units@) ==> r is Ok,
{
    match widestring::U16Str::from_slice(units).to_string() {
        Ok(s) => Ok(s),
        Err(_) => Err(()),
    }
}

/// An identifier for a user: the text form of the account's security
/// identifier, treated by callers as an opaque token.
#[derive(Debug, Clone)]
pub struct UserIdentifier(String);

impl View for UserIdentifier {
    type V = Seq<char>;

    closed spec fn view(&self) -> Seq<char> {
        self.0@
    }
}

impl UserIdentifier {
    /// The identifier's text form.
    pub fn as_str(&self) -> (r: &str)
        ensures
            r@ == self@,
    {
        self.0.as_str()
    }
}

/// The states of one identifier-to-text conversion.
pub enum SidTextState {
    /// Awaiting the outcome of the string-conversion call on the raw
    /// identifier.
    Convert,
    /// The conversion call's own output buffer is live and must be freed;
    /// `text` holds the already-decoded pending result.
    FreeText { text: Result<String, GetHomeError> },
    /// Finished.
    Done { result: Result<UserIdentifier, GetHomeError> },
}

/// One conversion of a raw security identifier to its canonical text form:
/// convert, decode, then free the conversion call's output buffer on every
/// path that saw it allocated.
pub struct SidConversion {
    /// Where the conversion stands.
    pub state: SidTextState,
    /// How many manual allocations this conversion has been handed and not
    /// yet released.
    pub live_buffers: u32,
}

impl SidConversion {
    /// The accounting invariant: exactly one buffer — the conversion call's
    /// output — is live between a successful conversion and its free, and a
    /// finished conversion holds none.
    pub open spec fn wf(self) -> bool {
        match self.state {
            SidTextState::Convert => self.live_buffers == 0,
            SidTextState::FreeText { .. } => self.live_buffers == 1,
            SidTextState::Done { .. } => self.live_buffers == 0,
        }
    }

    /// Begin a conversion.
    pub fn start() -> (m: SidConversion)
        ensures
            m.wf(),
            m.state is Convert,
    {
        SidConversion { state: SidTextState::Convert, live_buffers: 0 }
    }

    /// Consume the outcome of the string-conversion call: a failure finishes
    /// with that status; on success the returned buffer is recorded as live
    /// and its code units are decoded, the decoded text (or the decoding
    /// failure) held until the buffer is freed.
    pub fn on_convert(self, outcome: Result<Vec<u16>, u32>) -> (m: SidConversion)
        requires
            self.wf(),
            self.state is Convert,
        ensures
            m.wf(),
            outcome matches Err(code) ==> m.state == (SidTextState::Done {
                result: Err(GetHomeError::WindowsError(code)),
            }),
            outcome matches Ok(units) ==> m.state matches SidTextState::FreeText { text }
                && (text matches Ok(t) ==> utf16_of(t@) == units@)
                && ((exists|s: Seq<char>| utf16_of(s) == units@) <==> text is Ok)
                && (text is Err ==> text == Err::<String, GetHomeError>(GetHomeError::Utf16Error)),
    {
        match outcome {
            Err(code) => SidConversion {
                state: SidTextState::Done { result: Err(GetHomeError::WindowsError(code)) },
                live_buffers: self.live_buffers,
            },
            Ok(units) => {
                let text = match decode_wide(units.as_slice()) {
                    Ok(t) => Ok(t),
                    Err(()) => Err(GetHomeError::Utf16Error),
                };
                SidConversion {
                    state: SidTextState::FreeText { text },
                    live_buffers: self.live_buffers + 1,
                }
            },
        }
    }

    /// Consume the outcome of freeing the conversion call's output buffer.
    /// A decoding failure already pending is kept — the free is best-effort
    /// while unwinding and must not mask it — while on the success path a
    /// failed free is the only failure and surfaces with the given status.
    pub fn on_free(self, free_ok: bool, fail_code: u32) -> (m: SidConversion)
        requires
            self.wf(),
            self.state is FreeText,
        ensures
            m.wf(),
            m.state is Done,
            self.state matches SidTextState::FreeText { text } ==> match text {
                Err(e) => m.state == (SidTextState::Done { result: Err(e) }),
                Ok(t) => if free_ok {
                    m.state matches SidTextState::Done { result } && result matches Ok(id)
                        && id@ == t@
                } else {
                    m.state == (SidTextState::Done {
                        result: Err(GetHomeError::WindowsError(fail_code)),
                    })
                },
            },
    {
        match self.state {
            SidTextState::FreeText { text } => {
                let result = match text {
                    Err(e) => Err(e),
                    Ok(t) => if free_ok {
                        Ok(UserIdentifier(t))
                    } else {
                        Err(GetHomeError::WindowsError(fail_code))
                    },
                };
                SidConversion {
                    state: SidTextState::Done { result },
                    live_buffers: self.live_buffers - 1,
                }
            },
            _ => unreached(),
        }
    }
}

/// Buffer accounting for one conversion: when the machine has finished,
/// every buffer it recorded as allocated has been released.
pub proof fn lemma_conversion_balanced(m: SidConversion)
    requires
        m.wf(),
        m.state is Done,
    ensures
        m.live_buffers == 0,
{
}

/// The outcome of one account-lookup call made to probe or to fill buffers:
/// either the call completed, or it failed with a status; either way the
/// sizes are whatever the call wrote to its size parameters.
pub enum ProbeOutcome {
    /// The call completed.
    Completed { sid_size: u32, domain_size: u32 },
    /// The call failed with the given status.
    Failed { code: u32, sid_size: u32, domain_size: u32 },
}

/// The states of one name-to-identifier lookup.
pub enum AccountLookupState {
    /// Awaiting the outcome of the size-probing lookup call, made with the
    /// encoded username and empty buffers.
    ProbeSizes { name_units: Vec<u16> },
    /// Awaiting the outcome of allocating the identifier buffer of the
    /// probed size (the domain buffer, though unused by the caller, is
    /// mandatory for the call and is ordinarily allocated).
    Allocate { name_units: Vec<u16>, sid_size: u32, domain_size: u32 },
    /// Identifier buffer live; awaiting the outcome of the filling lookup
    /// call.
    Fill { name_units: Vec<u16>, sid_size: u32, domain_size: u32 },
    /// Identifier buffer live; the driver now runs a [`SidConversion`] on
    /// the filled raw identifier — which must outlive that conversion — and
    /// reports its final result.
    ConvertSid,
    /// Identifier buffer awaiting release, on the success path and on every
    /// failure path that saw it allocated.
    Release { pending: Result<Option<UserIdentifier>, GetHomeError> },
    /// Finished.
    Done { result: Result<Option<UserIdentifier>, GetHomeError> },
}

/// One lookup of a user's security identifier from their username: probe
/// the needed buffer sizes, allocate, call again to fill, convert the raw
/// identifier to text, and release the buffer on every path that saw it
/// allocated.
pub struct AccountLookup {
    /// Where the lookup stands.
    pub state: AccountLookupState,
    /// How many manual allocations this lookup has asked for and not yet
    /// released.  The conversion call's own buffer is accounted by the
    /// embedded [`SidConversion`], not here.
    pub live_buffers: u32,
}

impl AccountLookup {
    /// The accounting invariant: the identifier buffer is live from its
    /// allocation to its release, and a finished lookup holds nothing.
    pub open spec fn wf(self) -> bool {
        match self.state {
            AccountLookupState::ProbeSizes { .. } => self.live_buffers == 0,
            AccountLookupState::Allocate { .. } => self.live_buffers == 0,
            AccountLookupState::Fill { .. } => self.live_buffers == 1,
            AccountLookupState::ConvertSid => self.live_buffers == 1,
            AccountLookupState::Release { .. } => self.live_buffers == 1,
            AccountLookupState::Done { .. } => self.live_buffers == 0,
        }
    }

    /// Begin a lookup for the given username.
    ///
    /// A username holding an embedded null is refused with an encoding
    /// error before any call is made; otherwise the name is encoded as a
    /// nul-terminated wide string for the lookup call.
    pub fn start(name: &str) -> (m: AccountLookup)
        ensures
            m.wf(),
            has_nul(name@) ==> m.state == (AccountLookupState::Done {
                result: Err(GetHomeError::ContainsNul),
            }),
            !has_nul(name@) ==> (m.state matches AccountLookupState::ProbeSizes { name_units }
                && name_units@ == utf16_of(name@) + seq![0u16]),
    {
        if contains_nul(name) {
            return AccountLookup {
                state: AccountLookupState::Done { result: Err(GetHomeError::ContainsNul) },
                live_buffers: 0,
            };
        }
        let mut name_units = encode_wide(name);
        name_units.push(0u16);
        AccountLookup {
            state: AccountLookupState::ProbeSizes { name_units },
            live_buffers: 0,
        }
    }

    /// Consume the outcome of the size-probing lookup call.
    ///
    /// "No mapping" means the account does not exist and finishes as "not
    /// found" — a valid answer, not an error.  "Insufficient buffer" is the
    /// expected reply and carries the needed sizes; completion without it
    /// is accepted and handled by the size check.  Any other failing status
    /// surfaces as is.  A probed identifier size of zero is a shape
    /// violation answered with the "unexpected" status.
    pub fn on_probe(self, outcome: ProbeOutcome) -> (m: AccountLookup)
        requires
            self.wf(),
            self.state is ProbeSizes,
        ensures
            m.wf(),
            self.state matches AccountLookupState::ProbeSizes { name_units } ==> match outcome {
                ProbeOutcome::Failed { code, sid_size, domain_size } => {
                    if code == STATUS_NONE_MAPPED {
                        m.state == (AccountLookupState::Done {
                            result: Ok(None::<UserIdentifier>),
                        })
                    } else if code != STATUS_INSUFFICIENT_BUFFER {
                        m.state == (AccountLookupState::Done {
                            result: Err(GetHomeError::WindowsError(code)),
                        })
                    } else if sid_size == 0 {
                        m.state == (AccountLookupState::Done {
                            result: Err(GetHomeError::WindowsError(STATUS_UNEXPECTED)),
                        })
                    } else {
                        m.state matches AccountLookupState::Allocate {
                            name_units: kept,
                            sid_size: s,
                            domain_size: d,
                        } && kept@ == name_units@ && s == sid_size && d == domain_size
                    }
                },
                ProbeOutcome::Completed { sid_size, domain_size } => {
                    if sid_size == 0 {
                        m.state == (AccountLookupState::Done {
                            result: Err(GetHomeError::WindowsError(STATUS_UNEXPECTED)),
                        })
                    } else {
                        m.state matches AccountLookupState::Allocate {
                            name_units: kept,
                            sid_size: s,
                            domain_size: d,
                        } && kept@ == name_units@ && s == sid_size && d == domain_size
                    }
                },
            },
    {
        match self.state {
            AccountLookupState::ProbeSizes { name_units } => match outcome {
                ProbeOutcome::Failed { code, sid_size, domain_size } => {
                    if code == STATUS_NONE_MAPPED {
                        AccountLookup {
                            state: AccountLookupState::Done { result: Ok(None) },
                            live_buffers: self.live_buffers,
                        }
                    } else if code != STATUS_INSUFFICIENT_BUFFER {
                        AccountLookup {
                            state: AccountLookupState::Done {
                                result: Err(GetHomeError::WindowsError(code)),
                            },
                            live_buffers: self.live_buffers,
                        }
                    } else if sid_size == 0 {
                        AccountLookup {
                            state: AccountLookupState::Done {
                                result: Err(GetHomeError::WindowsError(STATUS_UNEXPECTED)),
                            },
                            live_buffers: self.live_buffers,
                        }
                    } else {
                        AccountLookup {
                            state: AccountLookupState::Allocate { name_units, sid_size, domain_size },
                            live_buffers: self.live_buffers,
                        }
                    }
                },
                ProbeOutcome::Completed { sid_size, domain_size } => {
                    if sid_size == 0 {
                        AccountLookup {
                            state: AccountLookupState::Done {
                                result: Err(GetHomeError::WindowsError(STATUS_UNEXPECTED)),
                            },
                            live_buffers: self.live_buffers,
                        }
                    } else {
                        AccountLookup {
                            state: AccountLookupState::Allocate { name_units, sid_size, domain_size },
                            live_buffers: self.live_buffers,
                        }
                    }
                },
            },
            _ => unreached(),
        }
    }

    /// Consume the outcome of allocating the identifier buffer: a failed
    /// allocation finishes with the out-of-memory status before anything
    /// was acquired; a successful one is recorded as live.
    pub fn on_alloc(self, success: bool) -> (m: AccountLookup)
        requires
            self.wf(),
            self.state is Allocate,
        ensures
            m.wf(),
            self.state matches AccountLookupState::Allocate { name_units, sid_size, domain_size }
                ==> if success {
                m.state matches AccountLookupState::Fill {
                    name_units: kept,
                    sid_size: s,
                    domain_size: d,
                } && kept@ == name_units@ && s == sid_size && d == domain_size
            } else {
                m.state == (AccountLookupState::Done {
                    result: Err(GetHomeError::WindowsError(STATUS_OUT_OF_MEMORY)),
                })
            },
    {
        match self.state {
            AccountLookupState::Allocate { name_units, sid_size, domain_size } => {
                if success {
                    AccountLookup {
                        state: AccountLookupState::Fill { name_units, sid_size, domain_size },
                        live_buffers: self.live_buffers + 1,
                    }
                } else {
                    AccountLookup {
                        state: AccountLookupState::Done {
                            result: Err(GetHomeError::WindowsError(STATUS_OUT_OF_MEMORY)),
                        },
                        live_buffers: self.live_buffers,
                    }
                }
            },
            _ => unreached(),
        }
    }

    /// Consume the outcome of the filling lookup call.  A failure is held
    /// as pending — the identifier buffer must still be released — and on
    /// success the raw identifier is ready for conversion.
    pub fn on_fill(self, outcome: Option<u32>) -> (m: AccountLookup)
        requires
            self.wf(),
            self.state is Fill,
        ensures
            m.wf(),
            outcome matches Some(code) ==> m.state == (AccountLookupState::Release {
                pending: Err(GetHomeError::WindowsError(code)),
            }),
            outcome is None ==> m.state is ConvertSid,
    {
        match outcome {
            Some(code) => AccountLookup {
                state: AccountLookupState::Release {
                    pending: Err(GetHomeError::WindowsError(code)),
                },
                live_buffers: self.live_buffers,
            },
            None => AccountLookup {
                state: AccountLookupState::ConvertSid,
                live_buffers: self.live_buffers,
            },
        }
    }

    /// Consume the final result of the [`SidConversion`] run on the raw
    /// identifier: it becomes the pending answer — a found identifier, or
    /// the conversion's failure — and the identifier buffer, now no longer
    /// needed, still awaits release either way.
    pub fn on_converted(self, converted: Result<UserIdentifier, GetHomeError>) -> (m:
        AccountLookup)
        requires
            self.wf(),
            self.state is ConvertSid,
        ensures
            m.wf(),
            converted matches Ok(id) ==> (m.state matches AccountLookupState::Release { pending }
                && pending matches Ok(Some(kept)) && kept@ == id@),
            converted matches Err(e) ==> m.state == (AccountLookupState::Release {
                pending: Err(e),
            }),
    {
        let pending = match converted {
            Ok(id) => Ok(Some(id)),
            Err(e) => Err(e),
        };
        AccountLookup { state: AccountLookupState::Release { pending }, live_buffers: self.live_buffers }
    }

    /// Record the release of the identifier buffer and finish with the
    /// pending answer.
    pub fn on_release(self) -> (m: AccountLookup)
        requires
            self.wf(),
            self.state is Release,
        ensures
            m.wf(),
            self.state matches AccountLookupState::Release { pending } ==> m.state
                == (AccountLookupState::Done { result: pending }),
    {
        match self.state {
            AccountLookupState::Release { pending } => AccountLookup {
                state: AccountLookupState::Done { result: pending },
                live_buffers: self.live_buffers - 1,
            },
            _ => unreached(),
        }
    }
}

/// Buffer accounting for one name-to-identifier lookup: when the machine
/// has finished, every allocation it recorded has been released.
pub proof fn lemma_account_lookup_balanced(m: AccountLookup)
    requires
        m.wf(),
        m.state is Done,
    ensures
        m.live_buffers == 0,
{
}

/// The outcome of the token-information call made to probe the needed
/// buffer size.
pub enum SizeProbeOutcome {
    /// The call completed; `size` is what it wrote to its size parameter.
    Completed { size: u32 },
    /// The call failed with the given status.
    Failed { code: u32, size: u32 },
}

/// The states of one lookup of the current process's own identifier.
pub enum TokenLookupState {
    /// Awaiting the outcome of opening the process token with query-only
    /// rights.
    OpenToken,
    /// Token open; awaiting the outcome of the size-probing information
    /// query for the token-owner class.
    ProbeSize,
    /// Token open; awaiting the outcome of allocating the information
    /// buffer of the probed size.
    Allocate { size: u32 },
    /// Token open, information buffer live; awaiting the outcome of the
    /// filling query.
    Fill { size: u32 },
    /// Token open, information buffer live; the driver now runs a
    /// [`SidConversion`] on the identifier embedded in the fetched
    /// information and reports its final result.
    ConvertSid,
    /// Token open; information buffer awaiting release.
    Release { pending: Result<UserIdentifier, GetHomeError> },
    /// Buffer released; token handle awaiting its unconditional close.
    CloseToken { pending: Result<UserIdentifier, GetHomeError> },
    /// Finished.
    Done { result: Result<UserIdentifier, GetHomeError> },
}

/// One lookup of the current process's own security identifier: open an
/// access token, probe the token-information size, allocate, query again to
/// fill, convert the embedded identifier to text, release the buffer, and
/// close the token handle on every path that saw it opened.
pub struct TokenLookup {
    /// Where the lookup stands.
    pub state: TokenLookupState,
    /// How many manual allocations this lookup has asked for and not yet
    /// released.
    pub live_buffers: u32,
    /// Whether the token handle is open and still to be closed.
    pub token_open: bool,
}

impl TokenLookup {
    /// The accounting invariant: the information buffer is live from its
    /// allocation to its release, the token handle open from its opening to
    /// its close, and a finished lookup holds neither.
    pub open spec fn wf(self) -> bool {
        match self.state {
            TokenLookupState::OpenToken => self.live_buffers == 0 && !self.token_open,
            TokenLookupState::ProbeSize => self.live_buffers == 0 && self.token_open,
            TokenLookupState::Allocate { .. } => self.live_buffers == 0 && self.token_open,
            TokenLookupState::Fill { .. } => self.live_buffers == 1 && self.token_open,
            TokenLookupState::ConvertSid => self.live_buffers == 1 && self.token_open,
            TokenLookupState::Release { .. } => self.live_buffers == 1 && self.token_open,
            TokenLookupState::CloseToken { .. } => self.live_buffers == 0 && self.token_open,
            TokenLookupState::Done { .. } => self.live_buffers == 0 && !self.token_open,
        }
    }

    /// Begin a lookup of the current process's own identifier.
    pub fn start() -> (m: TokenLookup)
        ensures
            m.wf(),
            m.state is OpenToken,
    {
        TokenLookup { state: TokenLookupState::OpenToken, live_buffers: 0, token_open: false }
    }

    /// Consume the outcome of opening the process token: a failure finishes
    /// with that status before any handle was acquired; success records the
    /// handle as open.
    pub fn on_open(self, outcome: Option<u32>) -> (m: TokenLookup)
        requires
            self.wf(),
            self.state is OpenToken,
        ensures
            m.wf(),
            outcome matches Some(code) ==> m.state == (TokenLookupState::Done {
                result: Err(GetHomeError::WindowsError(code)),
            }),
            outcome is None ==> m.state is ProbeSize,
    {
        match outcome {
            Some(code) => TokenLookup {
                state: TokenLookupState::Done {
                    result: Err(GetHomeError::WindowsError(code)),
                },
                live_buffers: self.live_buffers,
                token_open: false,
            },
            None => TokenLookup {
                state: TokenLookupState::ProbeSize,
                live_buffers: self.live_buffers,
                token_open: true,
            },
        }
    }

    /// Consume the outcome of the size-probing information query.
    /// "Insufficient buffer" is the expected reply; any other failing
    /// status becomes the pending answer, and a probed size of zero is a
    /// shape violation answered with the "unexpected" status.  On every
    /// failure the token handle still awaits its close.
    pub fn on_probe(self, outcome: SizeProbeOutcome) -> (m: TokenLookup)
        requires
            self.wf(),
            self.state is ProbeSize,
        ensures
            m.wf(),
            match outcome {
                SizeProbeOutcome::Failed { code, size } => {
                    if code != STATUS_INSUFFICIENT_BUFFER {
                        m.state == (TokenLookupState::CloseToken {
                            pending: Err(GetHomeError::WindowsError(code)),
                        })
                    } else if size == 0 {
                        m.state == (TokenLookupState::CloseToken {
                            pending: Err(GetHomeError::WindowsError(STATUS_UNEXPECTED)),
                        })
                    } else {
                        m.state == (TokenLookupState::Allocate { size })
                    }
                },
                SizeProbeOutcome::Completed { size } => {
                    if size == 0 {
                        m.state == (TokenLookupState::CloseToken {
                            pending: Err(GetHomeError::WindowsError(STATUS_UNEXPECTED)),
                        })
                    } else {
                        m.state == (TokenLookupState::Allocate { size })
                    }
                },
            },
    {
        let next = match outcome {
            SizeProbeOutcome::Failed { code, size } => {
                if code != STATUS_INSUFFICIENT_BUFFER {
                    TokenLookupState::CloseToken {
                        pending: Err(GetHomeError::WindowsError(code)),
                    }
                } else if size == 0 {
                    TokenLookupState::CloseToken {
                        pending: Err(GetHomeError::WindowsError(STATUS_UNEXPECTED)),
                    }
                } else {
                    TokenLookupState::Allocate { size }
                }
            },
            SizeProbeOutcome::Completed { size } => {
                if size == 0 {
                    TokenLookupState::CloseToken {
                        pending: Err(GetHomeError::WindowsError(STATUS_UNEXPECTED)),
                    }
                } else {
                    TokenLookupState::Allocate { size }
                }
            },
        };
        TokenLookup { state: next, live_buffers: self.live_buffers, token_open: self.token_open }
    }

    /// Consume the outcome of allocating the information buffer: a failed
    /// allocation leaves the out-of-memory status pending — the token
    /// handle still awaits its close — and a successful one is recorded as
    /// live.
    pub fn on_alloc(self, success: bool) -> (m: TokenLookup)
        requires
            self.wf(),
            self.state is Allocate,
        ensures
            m.wf(),
            self.state matches TokenLookupState::Allocate { size } ==> if success {
                m.state == (TokenLookupState::Fill { size })
            } else {
                m.state == (TokenLookupState::CloseToken {
                    pending: Err(GetHomeError::WindowsError(STATUS_OUT_OF_MEMORY)),
                })
            },
    {
        match self.state {
            TokenLookupState::Allocate { size } => {
                if success {
                    TokenLookup {
                        state: TokenLookupState::Fill { size },
                        live_buffers: self.live_buffers + 1,
                        token_open: self.token_open,
                    }
                } else {
                    TokenLookup {
                        state: TokenLookupState::CloseToken {
                            pending: Err(GetHomeError::WindowsError(STATUS_OUT_OF_MEMORY)),
                        },
                        live_buffers: self.live_buffers,
                        token_open: self.token_open,
                    }
                }
            },
            _ => unreached(),
        }
    }

    /// Consume the outcome of the filling information query.  A failure is
    /// held as pending — the buffer must still be released — and on success
    /// the embedded identifier is ready for conversion.
    pub fn on_fill(self, outcome: Option<u32>) -> (m: TokenLookup)
        requires
            self.wf(),
            self.state is Fill,
        ensures
            m.wf(),
            outcome matches Some(code) ==> m.state == (TokenLookupState::Release {
                pending: Err(GetHomeError::WindowsError(code)),
            }),
            outcome is None ==> m.state is ConvertSid,
    {
        match outcome {
            Some(code) => TokenLookup {
                state: TokenLookupState::Release {
                    pending: Err(GetHomeError::WindowsError(code)),
                },
                live_buffers: self.live_buffers,
                token_open: self.token_open,
            },
            None => TokenLookup {
                state: TokenLookupState::ConvertSid,
                live_buffers: self.live_buffers,
                token_open: self.token_open,
            },
        }
    }

    /// Consume the final result of the [`SidConversion`] run on the
    /// embedded identifier: it becomes the pending answer, and the
    /// information buffer still awaits release either way.
    pub fn on_converted(self, converted: Result<UserIdentifier, GetHomeError>) -> (m: TokenLookup)
        requires
            self.wf(),
            self.state is ConvertSid,
        ensures
            m.wf(),
            converted matches Ok(id) ==> (m.state matches TokenLookupState::Release { pending }
                && pending matches Ok(kept) && kept@ == id@),
            converted matches Err(e) ==> m.state == (TokenLookupState::Release { pending: Err(e) }),
    {
        TokenLookup {
            state: TokenLookupState::Release { pending: converted },
            live_buffers: self.live_buffers,
            token_open: self.token_open,
        }
    }

    /// Record the release of the information buffer; the token handle still
    /// awaits its unconditional close.
    pub fn on_release(self) -> (m: TokenLookup)
        requires
            self.wf(),
            self.state is Release,
        ensures
            m.wf(),
            self.state matches TokenLookupState::Release { pending } ==> m.state
                == (TokenLookupState::CloseToken { pending }),
    {
        match self.state {
            TokenLookupState::Release { pending } => TokenLookup {
                state: TokenLookupState::CloseToken { pending },
                live_buffers: self.live_buffers - 1,
                token_open: self.token_open,
            },
            _ => unreached(),
        }
    }

    /// Consume the outcome of closing the token handle and finish.  A
    /// pending failure is kept — the close is best-effort while unwinding
    /// and must not mask it — while on the success path a failed close is
    /// the only failure and surfaces with the given status.
    pub fn on_close(self, close_ok: bool, fail_code: u32) -> (m: TokenLookup)
        requires
            self.wf(),
            self.state is CloseToken,
        ensures
            m.wf(),
            m.state is Done,
            self.state matches TokenLookupState::CloseToken { pending } ==> match pending {
                Err(e) => m.state == (TokenLookupState::Done { result: Err(e) }),
                Ok(id) => if close_ok {
                    m.state matches TokenLookupState::Done { result } && result matches Ok(kept)
                        && kept@ == id@
                } else {
                    m.state == (TokenLookupState::Done {
                        result: Err(GetHomeError::WindowsError(fail_code)),
                    })
                },
            },
    {
        match self.state {
            TokenLookupState::CloseToken { pending } => {
                let result = match pending {
                    Err(e) => Err(e),
                    Ok(id) => if close_ok {
                        Ok(id)
                    } else {
                        Err(GetHomeError::WindowsError(fail_code))
                    },
                };
                TokenLookup {
                    state: TokenLookupState::Done { result },
                    live_buffers: self.live_buffers,
                    token_open: false,
                }
            },
            _ => unreached(),
        }
    }
}

/// Resource accounting for one self-identifier lookup: when the machine has
/// finished, every allocation it recorded has been released and the token
/// handle is closed.
pub proof fn lemma_token_lookup_balanced(m: TokenLookup)
    requires
        m.wf(),
        m.state is Done,
    ensures
        m.live_buffers == 0,
        !m.token_open,
{
}

/// A connection to the local management-instrumentation service, ready to
/// answer profile queries.  It witnesses that a [`ConnectSequence`] ran to
/// completion; the service handle itself lives with the platform driver.
pub struct GetHomeInstance {
    /// Whether this connection's construction initialized the shared
    /// component runtime (which is deliberately never torn down: it is
    /// process-wide state shared with any co-resident library).
    pub initialized_runtime: bool,
}

/// The states of one connection attempt to the instrumentation service.
pub enum ConnectState {
    /// Awaiting the outcome of instantiating the locator component;
    /// `retried` records whether the shared component runtime was already
    /// initialized by this sequence.
    CreateInstance { retried: bool },
    /// Awaiting the outcome of initializing the shared component runtime
    /// with the multi-threaded-apartment flag.
    InitializeRuntime,
    /// Locator in hand; awaiting the outcome of connecting to the local
    /// namespace named by `namespace`.
    ConnectNamespace { namespace: String },
    /// Connection made; awaiting the outcome of setting the connection's
    /// security and impersonation blanket to its fixed levels.
    SetBlanket,
    /// Finished.
    Done { result: Result<GetHomeInstance, GetHomeError> },
}

/// One connection attempt: instantiate the locator, initializing the shared
/// component runtime and retrying exactly once if — and only if — the
/// caller opted into auto-initialization and the first attempt failed
/// because the runtime was not yet initialized; then connect to the local
/// namespace and set the security blanket.  The runtime, once initialized,
/// is never uninitialized by this sequence.
pub struct ConnectSequence {
    /// Where the attempt stands.
    pub state: ConnectState,
    /// Whether a failure to instantiate for want of runtime initialization
    /// may be answered by initializing the runtime and retrying once.
    pub auto_initialize: bool,
}

impl ConnectSequence {
    /// Consume the outcome of instantiating the locator component.
    ///
    /// Success moves on to connecting to the `ROOT\CIMV2` namespace.  A
    /// failure because the runtime was not initialized leads to
    /// initializing it — but only when the caller opted in, and at most
    /// once per sequence; every other failure, and a second such failure
    /// after the retry, finishes with that status.
    pub fn on_create(self, outcome: Option<u32>) -> (m: ConnectSequence)
        requires
            self.state is CreateInstance,
        ensures
            m.auto_initialize == self.auto_initialize,
            outcome is None ==> (m.state matches ConnectState::ConnectNamespace { namespace }
                && namespace@ == "ROOT\\CIMV2"@),
            self.state matches ConnectState::CreateInstance { retried } ==> match outcome {
                Some(code) => {
                    if code == STATUS_NOT_INITIALIZED && self.auto_initialize && !retried {
                        m.state is InitializeRuntime
                    } else {
                        m.state == (ConnectState::Done {
                            result: Err(GetHomeError::WindowsError(code)),
                        })
                    }
                },
                None => true,
            },
            self.state matches ConnectState::CreateInstance { retried } && retried
                ==> !(m.state is InitializeRuntime),
    {
        match self.state {
            ConnectState::CreateInstance { retried } => {
                let next = match outcome {
                    None => ConnectState::ConnectNamespace {
                        namespace: String::from_str("ROOT\\CIMV2"),
                    },
                    Some(code) => {
                        if code == STATUS_NOT_INITIALIZED && self.auto_initialize && !retried {
                            ConnectState::InitializeRuntime
                        } else {
                            ConnectState::Done {
                                result: Err(GetHomeError::WindowsError(code)),
                            }
                        }
                    },
                };
                ConnectSequence { state: next, auto_initialize: self.auto_initialize }
            },
            _ => unreached(),
        }
    }

    /// Consume the outcome of initializing the shared component runtime: a
    /// failure finishes with that status; success returns to instantiation,
    /// recorded as the one permitted retry.
    pub fn on_initialize(self, outcome: Option<u32>) -> (m: ConnectSequence)
        requires
            self.state is InitializeRuntime,
        ensures
            m.auto_initialize == self.auto_initialize,
            outcome matches Some(code) ==> m.state == (ConnectState::Done {
                result: Err(GetHomeError::WindowsError(code)),
            }),
            outcome is None ==> m.state == (ConnectState::CreateInstance { retried: true }),
    {
        let next = match outcome {
            Some(code) => ConnectState::Done { result: Err(GetHomeError::WindowsError(code)) },
            None => ConnectState::CreateInstance { retried: true },
        };
        ConnectSequence { state: next, auto_initialize: self.auto_initialize }
    }

    /// Consume the outcome of connecting to the local namespace: a failure
    /// finishes with that status; success moves on to the security blanket.
    pub fn on_connect(self, outcome: Option<u32>) -> (m: ConnectSequence)
        requires
            self.state is ConnectNamespace,
        ensures
            m.auto_initialize == self.auto_initialize,
            outcome matches Some(code) ==> m.state == (ConnectState::Done {
                result: Err(GetHomeError::WindowsError(code)),
            }),
            outcome is None ==> m.state is SetBlanket,
    {
        let next = match outcome {
            Some(code) => ConnectState::Done { result: Err(GetHomeError::WindowsError(code)) },
            None => ConnectState::SetBlanket,
        };
        ConnectSequence { state: next, auto_initialize: self.auto_initialize }
    }

    /// Consume the outcome of setting the security blanket and finish: a
    /// failure carries its status, success yields the connection, which
    /// records whether this sequence initialized the shared runtime.
    pub fn on_blanket(self, outcome: Option<u32>, initialized_runtime: bool) -> (m: ConnectSequence)
        requires
            self.state is SetBlanket,
        ensures
            m.auto_initialize == self.auto_initialize,
            outcome matches Some(code) ==> m.state == (ConnectState::Done {
                result: Err(GetHomeError::WindowsError(code)),
            }),
            outcome is None ==> m.state == (ConnectState::Done {
                result: Ok(GetHomeInstance { initialized_runtime }),
            }),
    {
        let next = match outcome {
            Some(code) => ConnectState::Done { result: Err(GetHomeError::WindowsError(code)) },
            None => ConnectState::Done { result: Ok(GetHomeInstance { initialized_runtime }) },
        };
        ConnectSequence { state: next, auto_initialize: self.auto_initialize }
    }
}

/// The query text asking the instrumentation service for the local profile
/// path of the account with the given identifier text.
pub open spec fn wql_profile_query(sid: Seq<char>) -> Seq<char> {
    "SELECT LocalPath FROM Win32_UserProfile WHERE SID = '"@ + sid + "'"@
}

/// The outcome of pulling one row from the query's result enumeration.
pub enum RowOutcome {
    /// The enumeration call failed with the given status.
    Failed(u32),
    /// The enumeration returned no row: no profile matches the identifier.
    NoRows,
    /// The enumeration reported a row but handed back no object.
    NullRow,
    /// A row object is in hand.
    Row,
}

/// The value a row's requested field came back with.
pub enum FieldValue {
    /// The field's variant holds text: its UTF-16 code units.
    Text(Vec<u16>),
    /// The field's variant holds an unexpected tag.
    UnexpectedTag,
}

/// The states of one profile query.
pub enum ProfileQueryState {
    /// Awaiting the outcome of executing the query text `wql`.
    Exec { wql: String },
    /// Awaiting the next — and only — row of the result enumeration; the
    /// driver's wait for it is unbounded.
    FetchRow,
    /// Row in hand; awaiting the value of its `LocalPath` field.
    GetField,
    /// Finished.
    Done { result: Result<Option<String>, GetHomeError> },
}

/// One query of the instrumentation service for a profile path: execute the
/// query, pull at most one row, and decode the single requested field,
/// checking the field's variant tag before trusting its contents.
pub struct ProfileQuery {
    /// Where the query stands.
    pub state: ProfileQueryState,
}

impl GetHomeInstance {
    /// Begin a connection attempt to the local instrumentation service; the
    /// returned sequence is stepped by the platform driver and yields the
    /// connection when it finishes.
    pub fn new(auto_initialize: bool) -> (m: ConnectSequence)
        ensures
            m.state == (ConnectState::CreateInstance { retried: false }),
            m.auto_initialize == auto_initialize,
    {
        ConnectSequence { state: ConnectState::CreateInstance { retried: false }, auto_initialize }
    }

    /// Begin resolving an identifier to its profile path over this
    /// connection.  The query asks for exactly the `LocalPath` field of the
    /// profile whose `SID` field is the identifier's text; identifiers come
    /// only from the conversion routine, never from free text, which keeps
    /// the interpolation safe.
    pub fn query_home(&self, id: &UserIdentifier) -> (q: ProfileQuery)
        ensures
            q.state matches ProfileQueryState::Exec { wql } && wql@ == wql_profile_query(id@),
    {
        let mut wql = String::from_str("SELECT LocalPath FROM Win32_UserProfile WHERE SID = '");
        wql.append(id.as_str());
        wql.append("'");
        ProfileQuery { state: ProfileQueryState::Exec { wql } }
    }
}

impl ProfileQuery {
    /// Consume the outcome of executing the query: a failure finishes with
    /// that status; success moves on to the result enumeration.
    pub fn on_exec(self, outcome: Option<u32>) -> (m: ProfileQuery)
        requires
            self.state is Exec,
        ensures
            outcome matches Some(code) ==> m.state == (ProfileQueryState::Done {
                result: Err(GetHomeError::WindowsError(code)),
            }),
            outcome is None ==> m.state is FetchRow,
    {
        let next = match outcome {
            Some(code) => ProfileQueryState::Done {
                result: Err(GetHomeError::WindowsError(code)),
            },
            None => ProfileQueryState::FetchRow,
        };
        ProfileQuery { state: next }
    }

    /// Consume the outcome of pulling the single row.  No row means no
    /// profile matches: a valid "not found" answer, never an error.  A row
    /// reported but not handed over violates the assumed shape and is
    /// surfaced, never guessed at.
    pub fn on_row(self, outcome: RowOutcome) -> (m: ProfileQuery)
        requires
            self.state is FetchRow,
        ensures
            match outcome {
                RowOutcome::Failed(code) => m.state == (ProfileQueryState::Done {
                    result: Err(GetHomeError::WindowsError(code)),
                }),
                RowOutcome::NoRows => m.state == (ProfileQueryState::Done {
                    result: Ok(None::<String>),
                }),
                RowOutcome::NullRow => m.state == (ProfileQueryState::Done {
                    result: Err(GetHomeError::NullPointerResult),
                }),
                RowOutcome::Row => m.state is GetField,
            },
    {
        let next = match outcome {
            RowOutcome::Failed(code) => ProfileQueryState::Done {
                result: Err(GetHomeError::WindowsError(code)),
            },
            RowOutcome::NoRows => ProfileQueryState::Done { result: Ok(None) },
            RowOutcome::NullRow => ProfileQueryState::Done {
                result: Err(GetHomeError::NullPointerResult),
            },
            RowOutcome::Row => ProfileQueryState::GetField,
        };
        ProfileQuery { state: next }
    }

    /// Consume the value of the row's `LocalPath` field and finish.  A
    /// failed fetch carries its status; a variant with an unexpected tag is
    /// a shape violation, surfaced rather than read as something else; text
    /// is decoded from its UTF-16 code units into the profile path.
    pub fn on_field(self, outcome: Result<FieldValue, u32>) -> (m: ProfileQuery)
        requires
            self.state is GetField,
        ensures
            outcome matches Err(code) ==> m.state == (ProfileQueryState::Done {
                result: Err(GetHomeError::WindowsError(code)),
            }),
            outcome == Ok::<FieldValue, u32>(FieldValue::UnexpectedTag) ==> m.state
                == (ProfileQueryState::Done { result: Err(GetHomeError::NullPointerResult) }),
            outcome matches Ok(FieldValue::Text(units)) ==> (m.state
                matches ProfileQueryState::Done { result } && match result {
                Ok(found) => found matches Some(path) && utf16_of(path@) == units@,
                Err(e) => e == GetHomeError::Utf16Error && !(exists|s: Seq<char>|
                utf16_of(s) == units@),
            }),
    {
        let result = match outcome {
            Err(code) => Err(GetHomeError::WindowsError(code)),
            Ok(FieldValue::UnexpectedTag) => Err(GetHomeError::NullPointerResult),
            Ok(FieldValue::Text(units)) => match decode_wide(units.as_slice()) {
                Ok(path) => Ok(Some(path)),
                Err(()) => Err(GetHomeError::Utf16Error),
            },
        };
        ProfileQuery { state: ProfileQueryState::Done { result } }
    }
}

/// The registry value path for an identifier: the profile-list key prefix
/// under the local-machine root, with the identifier's text appended.  The
/// value named `ProfileImagePath` under that key holds the profile path.
pub open spec fn registry_profile_key(sid: Seq<char>) -> Seq<char> {
    "SOFTWARE\\Microsoft\\Windows NT\\CurrentVersion\\ProfileList\\"@ + sid
}

/// The states of one registry-strategy path lookup.
pub enum RegistryFetchState {
    /// Awaiting the outcome of the size-probing query for the value named
    /// `ProfileImagePath` under the key `key`.
    ProbeSize { key: String },
    /// Awaiting the outcome of the filling query of the probed size.
    Fetch { key: String, size: u32 },
    /// Finished.
    Done { result: Result<Option<String>, GetHomeError> },
}

/// The registry strategy for resolving an identifier to its profile path:
/// the documented alternative to the instrumentation query, lighter weight
/// since it needs no shared-runtime initialization, but dependent on
/// registry permissions for other users' profiles.  The stored value is
/// size-probed, fetched, and decoded; any non-success status from the
/// registry is surfaced as a failure.
pub struct RegistryFetch {
    /// Where the lookup stands.
    pub state: RegistryFetchState,
}

impl RegistryFetch {
    /// Consume the outcome of the size-probing value query: a failure
    /// surfaces its status; success carries the needed size.
    pub fn on_probe(self, outcome: Result<u32, u32>) -> (m: RegistryFetch)
        requires
            self.state is ProbeSize,
        ensures
            outcome matches Err(code) ==> m.state == (RegistryFetchState::Done {
                result: Err(GetHomeError::WindowsError(code)),
            }),
            self.state matches RegistryFetchState::ProbeSize { key } ==> match outcome {
                Ok(size) => m.state matches RegistryFetchState::Fetch { key: kept, size: s }
                    && kept@ == key@ && s == size,
                Err(_) => true,
            },
    {
        match self.state {
            RegistryFetchState::ProbeSize { key } => match outcome {
                Err(code) => RegistryFetch {
                    state: RegistryFetchState::Done {
                        result: Err(GetHomeError::WindowsError(code)),
                    },
                },
                Ok(size) => RegistryFetch { state: RegistryFetchState::Fetch { key, size } },
            },
            _ => unreached(),
        }
    }

    /// Consume the outcome of the filling value query and finish: a failure
    /// surfaces its status; the fetched value's code units are decoded into
    /// the profile path.
    pub fn on_fetch(self, outcome: Result<Vec<u16>, u32>) -> (m: RegistryFetch)
        requires
            self.state is Fetch,
        ensures
            outcome matches Err(code) ==> m.state == (RegistryFetchState::Done {
                result: Err(GetHomeError::WindowsError(code)),
            }),
            outcome matches Ok(units) ==> (m.state matches RegistryFetchState::Done { result }
                && match result {
                Ok(found) => found matches Some(path) && utf16_of(path@) == units@,
                Err(e) => e == GetHomeError::Utf16Error && !(exists|s: Seq<char>|
                utf16_of(s) == units@),
            }),
    {
        let result = match outcome {
            Err(code) => Err(GetHomeError::WindowsError(code)),
            Ok(units) => match decode_wide(units.as_slice()) {
                Ok(path) => Ok(Some(path)),
                Err(()) => Err(GetHomeError::Utf16Error),
            },
        };
        RegistryFetch { state: RegistryFetchState::Done { result } }
    }
}

/// The two path-resolution strategies agree: when the registry value and
/// the instrumentation query's field hold the same code units for an
/// identifier, the paths the two strategies decode from them are identical.
pub proof fn lemma_strategies_agree(
    registry_path: Seq<char>,
    query_path: Seq<char>,
    units: Seq<u16>,
)
    requires
        utf16_of(registry_path) == units,
        utf16_of(query_path) == units,
    ensures
        registry_path == query_path,
{
    lemma_utf16_injective(registry_path, query_path);
}

/// The outcome of the known-folder resolution call.
pub enum FolderOutcome {
    /// The call failed with the given status.
    Failed(u32),
    /// The call succeeded but handed back a null buffer.
    NullPath,
    /// The call succeeded: the profile path's UTF-16 code units.
    Path(Vec<u16>),
}

/// The states of one self home-directory lookup.
pub enum SelfProfileState {
    /// Awaiting the outcome of resolving the profile folder category
    /// through the known-folder service.
    FetchFolder,
    /// The system-owned path buffer is live and must be released exactly
    /// once; `path` holds the already-decoded pending result.
    FreeBuffer { path: Result<String, GetHomeError> },
    /// Finished.
    Done { result: Result<Option<String>, GetHomeError> },
}

/// One lookup of the current user's own profile directory through the
/// known-folder service: fetch, decode, and release the system-owned buffer
/// on every path that saw it handed over.
pub struct SelfProfile {
    /// Where the lookup stands.
    pub state: SelfProfileState,
    /// How many system-owned buffers this lookup has been handed and not
    /// yet released.
    pub live_buffers: u32,
}

/// Begin a lookup of the current user's own profile directory.
pub fn my_home() -> (m: SelfProfile)
    ensures
        m.wf(),
        m.state is FetchFolder,
{
    SelfProfile { state: SelfProfileState::FetchFolder, live_buffers: 0 }
}

impl SelfProfile {
    /// The accounting invariant: the system-owned buffer is live from the
    /// successful fetch to its release, and a finished lookup holds none.
    pub open spec fn wf(self) -> bool {
        match self.state {
            SelfProfileState::FetchFolder => self.live_buffers == 0,
            SelfProfileState::FreeBuffer { .. } => self.live_buffers == 1,
            SelfProfileState::Done { .. } => self.live_buffers == 0,
        }
    }

    /// Consume the outcome of the known-folder call.  An invalid-argument
    /// status is the documented answer for an unmapped folder category and
    /// finishes as "not found", as does a null buffer; any other failing
    /// status surfaces as is.  A returned buffer is recorded as live and
    /// its code units decoded, the result held until the buffer is freed.
    pub fn on_fetch(self, outcome: FolderOutcome) -> (m: SelfProfile)
        requires
            self.wf(),
            self.state is FetchFolder,
        ensures
            m.wf(),
            match outcome {
                FolderOutcome::Failed(code) => {
                    if code == STATUS_INVALID_ARGUMENT {
                        m.state == (SelfProfileState::Done { result: Ok(None::<String>) })
                    } else {
                        m.state == (SelfProfileState::Done {
                            result: Err(GetHomeError::WindowsError(code)),
                        })
                    }
                },
                FolderOutcome::NullPath => m.state == (SelfProfileState::Done {
                    result: Ok(None::<String>),
                }),
                FolderOutcome::Path(units) => m.state matches SelfProfileState::FreeBuffer { path }
                    && (path matches Ok(p) ==> utf16_of(p@) == units@)
                    && ((exists|s: Seq<char>| utf16_of(s) == units@) <==> path is Ok)
                    && (path is Err ==> path == Err::<String, GetHomeError>(
                    GetHomeError::Utf16Error,
                )),
            },
    {
        match outcome {
            FolderOutcome::Failed(code) => {
                let result = if code == STATUS_INVALID_ARGUMENT {
                    Ok(None)
                } else {
                    Err(GetHomeError::WindowsError(code))
                };
                SelfProfile {
                    state: SelfProfileState::Done { result },
                    live_buffers: self.live_buffers,
                }
            },
            FolderOutcome::NullPath => SelfProfile {
                state: SelfProfileState::Done { result: Ok(None) },
                live_buffers: self.live_buffers,
            },
            FolderOutcome::Path(units) => {
                let path = match decode_wide(units.as_slice()) {
                    Ok(p) => Ok(p),
                    Err(()) => Err(GetHomeError::Utf16Error),
                };
                SelfProfile {
                    state: SelfProfileState::FreeBuffer { path },
                    live_buffers: self.live_buffers + 1,
                }
            },
        }
    }

    /// Record the release of the system-owned buffer — its free routine
    /// cannot fail — and finish with the decoded path, or with the pending
    /// decoding failure.
    pub fn on_free(self) -> (m: SelfProfile)
        requires
            self.wf(),
            self.state is FreeBuffer,
        ensures
            m.wf(),
            self.state matches SelfProfileState::FreeBuffer { path } ==> match path {
                Ok(p) => m.state matches SelfProfileState::Done { result }
                    && result matches Ok(Some(kept)) && kept@ == p@,
                Err(e) => m.state == (SelfProfileState::Done { result: Err(e) }),
            },
    {
        match self.state {
            SelfProfileState::FreeBuffer { path } => {
                let result = match path {
                    Ok(p) => Ok(Some(p)),
                    Err(e) => Err(e),
                };
                SelfProfile {
                    state: SelfProfileState::Done { result },
                    live_buffers: self.live_buffers - 1,
                }
            },
            _ => unreached(),
        }
    }
}

/// Buffer accounting for one self home-directory lookup: when the machine
/// has finished, the system-owned buffer, if one was handed over, has been
/// released.
pub proof fn lemma_self_profile_balanced(m: SelfProfile)
    requires
        m.wf(),
        m.state is Done,
    ensures
        m.live_buffers == 0,
{
}

/// How a whole home-directory lookup proceeds after the name-to-identifier
/// phase.
pub enum HomeProgress {
    /// The lookup is settled without a profile query: the identifier phase
    /// failed, or found no account.
    Finished(Result<Option<String>, GetHomeError>),
    /// An identifier was found; its profile must now be queried, by a
    /// [`ConnectSequence`] and then [`GetHomeInstance::query_home`].
    NeedProfileQuery(UserIdentifier),
}

/// Decide how a home-directory lookup by username proceeds from the result
/// of its name-to-identifier phase: an absent account is already a "not
/// found" answer and no profile query is made; a found identifier's profile
/// remains to be queried.
pub fn home(id_lookup: Result<Option<UserIdentifier>, GetHomeError>) -> (r: HomeProgress)
    ensures
        id_lookup matches Err(e) ==> r == HomeProgress::Finished(Err(e)),
        id_lookup matches Ok(None::<UserIdentifier>) ==> r == HomeProgress::Finished(
            Ok(None::<String>),
        ),
        id_lookup matches Ok(Some(id)) ==> (r matches HomeProgress::NeedProfileQuery(kept)
            && kept@ == id@),
{
    match id_lookup {
        Err(e) => HomeProgress::Finished(Err(e)),
        Ok(None) => HomeProgress::Finished(Ok(None)),
        Ok(Some(id)) => HomeProgress::NeedProfileQuery(id),
    }
}

impl UserIdentifier {
    /// Begin a lookup of a user's identifier from their username; the
    /// returned machine is stepped by the platform driver.
    pub fn with_username(name: &str) -> (m: AccountLookup)
        ensures
            m.wf(),
            has_nul(name@) ==> m.state == (AccountLookupState::Done {
                result: Err(GetHomeError::ContainsNul),
            }),
            !has_nul(name@) ==> (m.state matches AccountLookupState::ProbeSizes { name_units }
                && name_units@ == utf16_of(name@) + seq![0u16]),
    {
        AccountLookup::start(name)
    }

    /// Begin a lookup of the current process's own identifier; the returned
    /// machine is stepped by the platform driver.
    pub fn my_id() -> (m: TokenLookup)
        ensures
            m.wf(),
            m.state is OpenToken,
    {
        TokenLookup::start()
    }

    /// Begin resolving this identifier to its profile path by the registry
    /// strategy, the documented alternative to [`UserIdentifier::to_home`]:
    /// the value path is the profile-list key prefix with this identifier's
    /// text appended, and the returned machine is stepped by the platform
    /// driver.
    pub fn registry_home(&self) -> (m: RegistryFetch)
        ensures
            m.state matches RegistryFetchState::ProbeSize { key } && key@ == registry_profile_key(
                self@,
            ),
    {
        let mut key = String::from_str(
            "SOFTWARE\\Microsoft\\Windows NT\\CurrentVersion\\ProfileList\\",
        );
        key.append(self.0.as_str());
        RegistryFetch { state: RegistryFetchState::ProbeSize { key } }
    }

    /// Begin resolving this identifier to its profile path: a connection to
    /// the instrumentation service must first be established — with runtime
    /// auto-initialization enabled, as on the one-call path — and the
    /// identifier then drives [`GetHomeInstance::query_home`] over it.
    pub fn to_home(&self) -> (r: (ConnectSequence, UserIdentifier))
        ensures
            r.0.state == (ConnectState::CreateInstance { retried: false }),
            r.0.auto_initialize,
            r.1@ == self@,
    {
        (GetHomeInstance::new(true), UserIdentifier(self.0.clone()))
    }
}

} // verus!
