use vstd::prelude::*;

verus! {

/// A marker type representing a scope where data loss is explicitly
/// acknowledged.
///
/// Use [`allow_data_loss`] to build this token. Destructive operations take
/// it as a parameter, so the acknowledgment is a type-level precondition
/// rather than a runtime flag.
pub struct DataLossToken {
    _private: (),
}

/// Creates a new `DataLossToken`.
///
/// This serves as an explicit opt-in mechanism for operations that may
/// result in irreversible data loss.
pub fn allow_data_loss() -> DataLossToken {
    DataLossToken { _private: () }
}

} // verus!
