//! Text injection: delivering final text into the window that had input
//! focus when recording started, through a primary clipboard-and-paste path
//! with a per-character typing fallback. This core holds the captured focus
//! handle and the injector settings, computes the clipboard image and the
//! expected synthetic-event counts, and makes every decision; the OS calls —
//! clipboard access, focus restoration, synthetic input — are performed by
//! the embedding application between the decision points.

use vstd::prelude::*;
use crate::textops::str_chars;

verus! {

/// The clipboard operation at which the primary path failed.
#[derive(Debug, Clone, Copy, PartialEq, Eq, Structural)]
pub enum ClipboardStep {
    /// Opening the clipboard.
    Open,
    /// Emptying the clipboard.
    Clear,
    /// Allocating the transfer buffer.
    Allocate,
    /// Locking the transfer buffer.
    Lock,
    /// Handing the buffer to the clipboard.
    SetData,
}

/// Why an injection path failed.
#[derive(Debug, Clone, PartialEq, Eq)]
pub enum InjectionError {
    /// No focus handle was ever captured; both paths fail immediately.
    NoTarget,
    /// A clipboard step of the primary path failed.
    Clipboard(ClipboardStep),
    /// The OS accepted fewer synthetic input events than were sent.
    PartialDelivery { sent: u32, expected: u32 },
}

/// What `inject` does once the primary clipboard-paste path has finished.
#[derive(Debug, Clone, PartialEq, Eq)]
pub enum InjectStep {
    /// The primary path succeeded; injection is complete.
    Done,
    /// The primary path failed and fallback is enabled: type the text
    /// character by character.
    TryFallback,
    /// The primary path failed and fallback is disabled: report its error.
    Fail(InjectionError),
}

/// The injector: the captured focus handle and the two independently mutable
/// settings, each read only while injecting.
pub struct TextInjector {
    target_hwnd: Option<u64>,
    focus_delay_ms: u64,
    enable_fallback: bool,
}

impl TextInjector {
    /// The window handle captured at Pressed time, if any.
    pub closed spec fn spec_target(&self) -> Option<u64> {
        self.target_hwnd
    }

    /// The delay waited after restoring focus, in milliseconds.
    pub closed spec fn spec_focus_delay(&self) -> u64 {
        self.focus_delay_ms
    }

    /// Whether the typing fallback is enabled.
    pub closed spec fn spec_fallback_enabled(&self) -> bool {
        self.enable_fallback
    }

    /// A fresh injector: no captured focus, a 100 ms focus delay, fallback
    /// enabled.
    pub fn new() -> (r: Self)
        ensures
            r.spec_target() is None,
            r.spec_focus_delay() == 100,
            r.spec_fallback_enabled(),
    {
        TextInjector { target_hwnd: None, focus_delay_ms: 100, enable_fallback: true }
    }

    pub fn set_focus_delay(&mut self, delay_ms: u64)
        ensures
            final(self).spec_focus_delay() == delay_ms,
            final(self).spec_target() == old(self).spec_target(),
            final(self).spec_fallback_enabled() == old(self).spec_fallback_enabled(),
    {
        self.focus_delay_ms = delay_ms;
    }

    pub fn set_fallback_enabled(&mut self, enabled: bool)
        ensures
            final(self).spec_fallback_enabled() == enabled,
            final(self).spec_target() == old(self).spec_target(),
            final(self).spec_focus_delay() == old(self).spec_focus_delay(),
    {
        self.enable_fallback = enabled;
    }

    /// Records the foreground window handle at Pressed time, overwriting any
    /// previously captured handle; exactly one handle is live at a time.
    pub fn capture_focus(&mut self, hwnd: u64)
        ensures
            final(self).spec_target() == Some(hwnd),
            final(self).spec_focus_delay() == old(self).spec_focus_delay(),
            final(self).spec_fallback_enabled() == old(self).spec_fallback_enabled(),
    {
        self.target_hwnd = Some(hwnd);
    }

    /// The focus delay to wait after restoring focus, in milliseconds.
    pub fn focus_delay_ms(&self) -> (r: u64)
        ensures
            r == self.spec_focus_delay(),
    {
        self.focus_delay_ms
    }

    /// Whether the typing fallback is enabled.
    pub fn fallback_enabled(&self) -> (r: bool)
        ensures
            r == self.spec_fallback_enabled(),
    {
        self.enable_fallback
    }

    /// The target of this injection: the captured handle, or the no-target
    /// failure when none was ever captured — in that case both paths fail
    /// immediately.
    pub fn injection_target(&self) -> (r: Result<u64, InjectionError>)
        ensures
            (self.spec_target() matches Some(h) ==> r == Ok::<u64, InjectionError>(h)),
            self.spec_target() is None ==> r == Err::<u64, InjectionError>(
                InjectionError::NoTarget,
            ),
    {
        match self.target_hwnd {
            Some(h) => Ok(h),
            None => Err(InjectionError::NoTarget),
        }
    }

    /// The decision after the primary path: success is final; a failure goes
    /// to the typing fallback exactly when fallback is enabled, and is
    /// propagated unchanged otherwise.
    pub fn after_primary(&self, primary: Result<(), InjectionError>) -> (step: InjectStep)
        ensures
            primary is Ok ==> step == InjectStep::Done,
            primary is Err && self.spec_fallback_enabled() ==> step == InjectStep::TryFallback,
            !self.spec_fallback_enabled() ==> (primary matches Err(e) ==> step == InjectStep::Fail(
                e,
            )),
    {
        match primary {
            Ok(_) => InjectStep::Done,
            Err(e) => {
                if self.enable_fallback {
                    InjectStep::TryFallback
                } else {
                    InjectStep::Fail(e)
                }
            },
        }
    }
}

/// The result of a whole injection, as a function of the two paths'
/// outcomes: the primary result when it succeeded or fallback is disabled,
/// the fallback result otherwise.
pub open spec fn inject_result(
    fallback_enabled: bool,
    primary: Result<(), InjectionError>,
    fallback: Result<(), InjectionError>,
) -> Result<(), InjectionError> {
    match primary {
        Ok(u) => Ok(u),
        Err(e) => if fallback_enabled {
            fallback
        } else {
            Err(e)
        },
    }
}

/// A failing primary path falls back exactly when fallback is enabled: the
/// injection then returns the fallback path's own result; with fallback
/// disabled the primary failure is propagated unchanged, and a successful
/// primary path never reaches the fallback.
pub proof fn lemma_injector_fallback(
    fallback_enabled: bool,
    primary: Result<(), InjectionError>,
    fallback: Result<(), InjectionError>,
)
    ensures
        primary is Err && fallback_enabled ==> inject_result(fallback_enabled, primary, fallback)
            == fallback,
        !fallback_enabled ==> (primary matches Err(e) ==> inject_result(
            fallback_enabled,
            primary,
            fallback,
        ) == Err::<(), InjectionError>(e)),
        primary is Ok ==> inject_result(fallback_enabled, primary, fallback) == Ok::<
            (),
            InjectionError,
        >(()),
{
}

/// The UTF-16 code units of one character: one unit below 0x10000, else a
/// surrogate pair.
pub open spec fn utf16_units(c: char) -> Seq<u16> {
    if (c as u32) < 0x10000 {
        seq![c as u16]
    } else {
        seq![
            (0xD800 + ((c as u32 - 0x10000) / 0x400)) as u16,
            (0xDC00 + ((c as u32 - 0x10000) % 0x400)) as u16,
        ]
    }
}

/// The UTF-16 encoding of `s`, in order.
pub open spec fn utf16_encode(s: Seq<char>) -> Seq<u16>
    decreases s.len(),
{
    if s.len() == 0 {
        Seq::empty()
    } else {
        utf16_units(s[0]) + utf16_encode(s.subrange(1, s.len() as int))
    }
}

proof fn lemma_utf16_encode_snoc(s: Seq<char>, c: char)
    ensures
        utf16_encode(s.push(c)) == utf16_encode(s) + utf16_units(c),
    decreases s.len(),
{
    let p = s.push(c);
    if s.len() == 0 {
        assert(p.subrange(1, p.len() as int) =~= Seq::<char>::empty());
        assert(utf16_encode(p) == utf16_units(c) + utf16_encode(Seq::<char>::empty()));
        assert(utf16_units(c) + Seq::<u16>::empty() =~= utf16_units(c));
        assert(Seq::<u16>::empty() + utf16_units(c) =~= utf16_units(c));
    } else {
        let rest = s.subrange(1, s.len() as int);
        lemma_utf16_encode_snoc(rest, c);
        assert(p.subrange(1, p.len() as int) =~= rest.push(c));
        assert(utf16_units(s[0]) + (utf16_encode(rest) + utf16_units(c)) =~= (utf16_units(s[0])
            + utf16_encode(rest)) + utf16_units(c));
    }
}

/// The nul-terminated UTF-16 image that the primary path places on the
/// clipboard.
pub fn clipboard_utf16(text: &str) -> (r: Vec<u16>)
    ensures
        r@ == utf16_encode(text@).push(0u16),
{
    let chars = str_chars(text);
    let n = chars.len();
    let mut out: Vec<u16> = Vec::new();
    let mut i: usize = 0;
    proof {
        assert(utf16_encode(chars@.subrange(0, 0)) =~= Seq::<u16>::empty());
    }
    while i < n
        invariant
            i <= n,
            n == chars@.len(),
            chars@ == text@,
            out@ == utf16_encode(chars@.subrange(0, i as int)),
        decreases n - i,
    {
        proof {
            lemma_utf16_encode_snoc(chars@.subrange(0, i as int), chars@[i as int]);
            assert(chars@.subrange(0, i + 1) =~= chars@.subrange(0, i as int).push(
                chars@[i as int],
            ));
        }
        let c = chars[i];
        let u = c as u32;
        if u < 0x10000 {
            out.push(c as u16);
            proof {
                assert(out@ =~= utf16_encode(chars@.subrange(0, i + 1)));
            }
        } else {
            out.push((0xD800 + ((u - 0x10000) / 0x400)) as u16);
            out.push((0xDC00 + ((u - 0x10000) % 0x400)) as u16);
            proof {
                assert(out@ =~= utf16_encode(chars@.subrange(0, i + 1)));
            }
        }
        i = i + 1;
    }
    proof {
        assert(chars@.subrange(0, n as int) =~= chars@);
    }
    out.push(0);
    out
}

/// The primary paste chord is four synthetic events — Ctrl down, V down, V
/// up, Ctrl up; the OS accepting fewer is a partial delivery and fails the
/// primary path.
pub fn paste_chord_delivered(sent: u32) -> (r: Result<(), InjectionError>)
    ensures
        sent == 4 ==> r is Ok,
        sent != 4 ==> r == Err::<(), InjectionError>(
            (InjectionError::PartialDelivery { sent, expected: 4 }),
        ),
{
    if sent == 4 {
        Ok(())
    } else {
        Err(InjectionError::PartialDelivery { sent, expected: 4 })
    }
}

/// A typed character is two synthetic events — key down, key up. The
/// fallback path only notes a partial delivery; it does not fail on it.
pub fn char_events_delivered(sent: u32) -> (r: bool)
    ensures
        r == (sent == 2),
{
    sent == 2
}

} // verus!
