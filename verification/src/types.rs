//! The data model: identities, the singleton authority record, the record
//! types, their status enums, and the error taxonomy shared by every
//! operation.

use vstd::prelude::*;

verus! {

/// Maximum byte length of a grievance's or a project's details text.
pub const MAX_DETAILS_LEN: usize = 512;

/// Maximum byte length of a project's name.
pub const MAX_NAME_LEN: usize = 256;

/// Maximum byte length of a feedback comment.
pub const MAX_COMMENT_LEN: usize = 256;

/// Tax year recorded in the authority record at bootstrap.
pub const INITIAL_TAX_YEAR: u16 = 2024;

/// An opaque caller credential, asserted by the authentication layer outside
/// this library. The ledger reads nothing of an identity but equality.
#[derive(Clone, Copy, Debug, PartialEq, Eq, Structural)]
pub struct Identity {
    pub id: u64,
}

/// Lifecycle states of a grievance. Transitions are unrestricted in
/// direction (corrective moves such as `Rejected` back to `Pending` are
/// deliberately permitted) but are gated to the municipal head.
#[derive(Clone, Copy, Debug, PartialEq, Eq, Structural)]
pub enum GrievanceStatus {
    Pending,
    Accepted,
    Rejected,
    Done,
}

/// Lifecycle states of a project. `Done` is the one state with an external
/// effect: it unlocks feedback creation.
#[derive(Clone, Copy, Debug, PartialEq, Eq, Structural)]
pub enum ProjectStatus {
    Planning,
    Ongoing,
    Done,
}

/// The singleton authority record: the two role identities and the current
/// tax period. Created once at bootstrap; only the government officer may
/// later assign the municipal head, and nothing rewrites the officer.
#[derive(Clone, Copy, Debug, PartialEq, Eq)]
pub struct State {
    pub admin_govt: Identity,
    pub admin_head: Option<Identity>,
    pub current_tax_year: u16,
}

/// The tax rate of one ward, in minor currency units per payer per year.
/// Keyed by `ward`; re-creation at the same key overwrites the rate.
#[derive(Clone, Copy, Debug, PartialEq, Eq, Structural)]
pub struct WardTax {
    pub ward: u16,
    pub amount: u64,
}

/// A tax receipt, keyed by `(user, year)`: at most one may ever exist per
/// key. Immutable once created; `amount` is the ward's rate at creation
/// time, never a caller-supplied value.
#[derive(Clone, Copy, Debug, PartialEq, Eq, Structural)]
pub struct TaxPayment {
    pub user: Identity,
    pub amount: u64,
    pub year: u16,
    pub timestamp: i64,
}

/// A citizen grievance. The filer is the authenticated caller; the status is
/// mutated only by the municipal head.
#[derive(Debug, PartialEq, Eq)]
pub struct Grievance {
    pub user: Identity,
    pub details: Vec<u8>,
    pub status: GrievanceStatus,
    pub timestamp: i64,
}

/// A municipal project, created and status-mutated only by the municipal
/// head.
#[derive(Debug, PartialEq, Eq)]
pub struct Project {
    pub name: Vec<u8>,
    pub details: Vec<u8>,
    pub status: ProjectStatus,
}

/// Feedback on a completed project. `project` is the identifier of the
/// referenced project record; creation requires that project to be `Done` at
/// call time. Immutable once created.
#[derive(Debug, PartialEq, Eq)]
pub struct Feedback {
    pub user: Identity,
    pub project: u64,
    pub comment: Vec<u8>,
    pub satisfied: bool,
}

/// The error taxonomy. Every operation fails with exactly one of these and
/// leaves the ledger untouched; no failure partially applies.
#[derive(Clone, Copy, Debug, PartialEq, Eq, Structural)]
pub enum ErrorCode {
    /// The caller lacks the role the operation requires.
    Unauthorized,
    /// Feedback was requested on a project whose status is not `Done`.
    ProjectNotDone,
    /// The one-time bootstrap was attempted a second time.
    AlreadyInitialized,
    /// A referenced record (or the authority record itself) does not exist.
    NotFound,
    /// A supplied address does not match the one derived from the claimed
    /// seed.
    AddressMismatch,
    /// No tax rate is set for the ward being paid.
    TaxRateNotSet,
    /// A payment for this payer and year already exists.
    DuplicatePayment,
    /// The payer's spendable balance is below the ward's rate.
    InsufficientFunds,
    /// A bounded text input exceeds its declared maximum byte length.
    StringTooLong,
}

impl ErrorCode {
    /// The stable, human-readable message carried by each error kind.
    pub fn message(&self) -> &'static str {
        match self {
            ErrorCode::Unauthorized => "You are not authorized to perform this action.",
            ErrorCode::ProjectNotDone => "The project must be marked as 'Done' to provide feedback.",
            ErrorCode::AlreadyInitialized => "The ledger has already been initialized.",
            ErrorCode::NotFound => "The referenced record does not exist.",
            ErrorCode::AddressMismatch => "The supplied address does not match the derived address.",
            ErrorCode::TaxRateNotSet => "No tax rate has been set for this ward.",
            ErrorCode::DuplicatePayment => "A tax payment for this payer and year already exists.",
            ErrorCode::InsufficientFunds => "The payer's balance is insufficient for this payment.",
            ErrorCode::StringTooLong => "A text input exceeds its maximum length.",
        }
    }
}

} // verus!
