//! Torus Panic: the descriptive abort raised on a buffer lease violation.
use crate::lease::LeaseError;
use crate::text::{decimal_chars, hex_prefixed, push_decimal, push_hex};
use vstd::prelude::*;

verus! {

/// A descriptive, safe user-space abort that prevents kernel corruption.
///
/// It is raised when a buffer lease violation is detected, for example when
/// an application frees or modifies a buffer that is still in flight. The
/// abort itself is performed by the embedding program; this value carries
/// what it reports.
#[derive(Debug)]
pub struct TorusPanic {
    message: String,
    address: Option<usize>,
    backtrace: Option<String>,
}

/// The message a Torus Panic carries for a lease error.
pub open spec fn lease_panic_text(e: &LeaseError) -> Seq<char> {
    match e {
        LeaseError::Violation { addr, msg } => msg@,
        LeaseError::NotRegistered => "buffer is not registered with the lease registry"@,
        LeaseError::InFlight { count } => "buffer is in-flight ("@ + decimal_chars(*count as nat)
            + " operations)"@,
        LeaseError::OutOfBounds { requested_end, region_end } =>
            "buffer access extends past registered region (requested end="@ + hex_prefixed(
            *requested_end as nat,
        ) + ", region end="@ + hex_prefixed(*region_end as nat) + ")"@,
        LeaseError::Overlap { existing_start, existing_len } => "buffer overlaps with registered region at "@
            + hex_prefixed(*existing_start as nat) + " (len="@ + decimal_chars(*existing_len as nat)
            + ")"@,
    }
}

/// The faulting address a Torus Panic carries for a lease error.
pub open spec fn lease_panic_address(e: &LeaseError) -> Option<usize> {
    match e {
        LeaseError::Violation { addr, .. } => Some(*addr),
        _ => None,
    }
}

/// How a Torus Panic with `message` and `address` is displayed:
/// `Torus Panic: <message>`, followed by ` at 0x<address>` when there is one.
pub open spec fn panic_display_text(message: Seq<char>, address: Option<usize>) -> Seq<char> {
    match address {
        Some(a) => "Torus Panic: "@ + message + " at "@ + hex_prefixed(a as nat),
        None => "Torus Panic: "@ + message,
    }
}

impl TorusPanic {
    /// The panic message.
    pub closed spec fn text(&self) -> Seq<char> {
        self.message@
    }

    /// The faulting address, if any.
    pub closed spec fn fault_address(&self) -> Option<usize> {
        self.address
    }

    /// Whether a backtrace was captured.
    pub closed spec fn has_backtrace(&self) -> bool {
        self.backtrace is Some
    }

    /// Create a new Torus Panic with a descriptive message.
    pub fn new(message: &str, address: Option<usize>) -> (p: Self)
        ensures
            p.text() == message@,
            p.fault_address() == address,
            !p.has_backtrace(),
    {
        TorusPanic { message: String::from_str(message), address, backtrace: None }
    }

    fn with_message(message: String, address: Option<usize>) -> (p: Self)
        ensures
            p.text() == message@,
            p.fault_address() == address,
            !p.has_backtrace(),
    {
        TorusPanic { message, address, backtrace: None }
    }

    /// Create a Torus Panic from a lease error.
    pub fn from_lease_error(error: &LeaseError) -> (p: Self)
        ensures
            p.text() == lease_panic_text(error),
            p.fault_address() == lease_panic_address(error),
            !p.has_backtrace(),
    {
        match error {
            LeaseError::Violation { addr, msg } => Self::with_message(msg.clone(), Some(*addr)),
            LeaseError::NotRegistered => Self::new(
                "buffer is not registered with the lease registry",
                None,
            ),
            LeaseError::InFlight { count } => {
                let mut s = String::from_str("buffer is in-flight (");
                push_decimal(&mut s, *count as u64);
                s.append(" operations)");
                Self::with_message(s, None)
            },
            LeaseError::OutOfBounds { requested_end, region_end } => {
                let mut s = String::from_str(
                    "buffer access extends past registered region (requested end=",
                );
                push_hex(&mut s, *requested_end as u64);
                s.append(", region end=");
                push_hex(&mut s, *region_end as u64);
                s.append(")");
                Self::with_message(s, None)
            },
            LeaseError::Overlap { existing_start, existing_len } => {
                let mut s = String::from_str("buffer overlaps with registered region at ");
                push_hex(&mut s, *existing_start as u64);
                s.append(" (len=");
                push_decimal(&mut s, *existing_len as u64);
                s.append(")");
                Self::with_message(s, None)
            },
        }
    }

    /// Get the panic message.
    pub fn message(&self) -> (m: &str)
        ensures
            m@ == self.text(),
    {
        self.message.as_str()
    }

    /// Get the faulting address, if any.
    pub fn address(&self) -> (a: Option<usize>)
        ensures
            a == self.fault_address(),
    {
        self.address
    }

    /// The one-line description of the panic: `Torus Panic: <message>`,
    /// followed by ` at 0x<address>` when there is a faulting address.
    pub fn display_string(&self) -> (s: String)
        ensures
            s@ == panic_display_text(self.text(), self.fault_address()),
    {
        let mut s = String::from_str("Torus Panic: ");
        s.append(self.message.as_str());
        if let Some(addr) = self.address {
            s.append(" at ");
            push_hex(&mut s, addr as u64);
        }
        s
    }
}

} // verus!
