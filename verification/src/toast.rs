//! Transient status messages shown over the UI.
use vstd::prelude::*;

verus! {

/// How long a toast stays up, in seconds.
pub const TOAST_TTL_SECS: u64 = 5;

#[verifier::external_type_specification]
#[verifier::external_body]
pub struct ExInstant(std::time::Instant);

/// `std::time::Instant::now`: the current monotonic time. Nothing is stated
/// of it: it is the clock.
#[verifier::external_body]
fn instant_now() -> (r: std::time::Instant) {
    std::time::Instant::now()
}

/// `Instant::elapsed` in whole seconds (`Duration::as_secs`). Nothing is
/// stated of it: it reads the clock.
#[verifier::external_body]
fn elapsed_secs(t: &std::time::Instant) -> (r: u64) {
    t.elapsed().as_secs()
}

#[derive(Debug, Clone, Copy, PartialEq, Eq, Structural)]
pub enum ToastLevel {
    Info,
    Success,
    Warning,
    Error,
}

#[derive(Debug)]
pub struct Toast {
    pub message: String,
    pub level: ToastLevel,
    created_at: std::time::Instant,
}

/// A toast's message and level.

pub struct ToastView {
    pub message: Seq<char>,
    pub level: ToastLevel,
}

impl View for Toast {
    type V = ToastView;

    closed spec fn view(&self) -> ToastView {
        ToastView { message: self.message@, level: self.level }
    }
}

impl Toast {
    /// An informational toast, stamped now.
    pub fn info(message: String) -> (r: Self)
        ensures
            r@ == (ToastView { message: message@, level: ToastLevel::Info }),
    {
        Self::new(message, ToastLevel::Info)
    }

    /// An error toast, stamped now.
    pub fn error(message: String) -> (r: Self)
        ensures
            r@ == (ToastView { message: message@, level: ToastLevel::Error }),
    {
        Self::new(message, ToastLevel::Error)
    }

    fn new(message: String, level: ToastLevel) -> (r: Self)
        ensures
            r@ == (ToastView { message: message@, level }),
    {
        Toast { message, level, created_at: instant_now() }
    }

    /// Whether a toast that has been up for `secs` whole seconds has had
    /// its whole time to live.
    pub fn expired_after(secs: u64) -> (r: bool)
        ensures
            r == (secs >= TOAST_TTL_SECS),
    {
        secs >= TOAST_TTL_SECS
    }

    /// Whether the toast has been up for the whole time to live, by the
    /// clock as read now (see [`Toast::expired_after`]).
    pub fn is_expired(&self) -> bool {
        Self::expired_after(elapsed_secs(&self.created_at))
    }
}

} // verus!
