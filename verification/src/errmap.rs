//! Translation of native storage faults into the shared error taxonomy.
//!
//! This mapping is the one piece of adapter logic shared by every resource:
//! a "no rows returned" condition becomes `NotFound`; a database-reported
//! error whose constraint code matches the store's unique-violation signal
//! becomes `Conflict`; every other native failure is wrapped into
//! `Unexpected`, carrying the original diagnostic text. The function is pure
//! and is parameterized by the unique-violation code rather than copied per
//! resource.

use crate::ports::{RepoError, RepoErrorView};
use vstd::prelude::*;

verus! {

/// What an adapter reads off a native storage fault before translating it:
/// the "no rows returned" condition, a database-reported error with its
/// optional constraint code and diagnostic text, or any other failure with
/// its diagnostic text alone.
#[derive(Debug)]
pub enum StoreFault {
    NoRows,
    Database { code: Option<String>, message: String },
    Other { message: String },
}

/// Mathematical model of a `StoreFault`.
pub enum StoreFaultView {
    NoRows,
    Database { code: Option<Seq<char>>, message: Seq<char> },
    Other { message: Seq<char> },
}

impl View for StoreFault {
    type V = StoreFaultView;

    open spec fn view(&self) -> StoreFaultView {
        match self {
            StoreFault::NoRows => StoreFaultView::NoRows,
            StoreFault::Database { code, message } => StoreFaultView::Database {
                code: match code {
                    Option::Some(c) => Option::Some(c@),
                    Option::None => Option::None,
                },
                message: message@,
            },
            StoreFault::Other { message } => StoreFaultView::Other { message: message@ },
        }
    }
}

/// The error each native fault translates to, given the code the store uses
/// to signal a unique-constraint violation.
pub open spec fn mapped_fault(f: StoreFaultView, unique_code: Seq<char>) -> RepoErrorView {
    match f {
        StoreFaultView::NoRows => RepoErrorView::NotFound,
        StoreFaultView::Database { code, message } => {
            if code == Option::Some(unique_code) {
                RepoErrorView::Conflict
            } else {
                RepoErrorView::Unexpected(message)
            }
        },
        StoreFaultView::Other { message } => RepoErrorView::Unexpected(message),
    }
}

/// Translates a native storage fault into the repository error taxonomy.
/// `unique_code` is the native constraint-violation code that signals a
/// uniqueness violation (for a Postgres store, `"23505"`).
pub fn map_store_fault(fault: StoreFault, unique_code: &str) -> (r: RepoError)
    ensures
        r@ == mapped_fault(fault@, unique_code@),
{
    match fault {
        StoreFault::NoRows => RepoError::NotFound,
        StoreFault::Database { code, message } => {
            match code {
                Option::Some(c) => {
                    let wanted: String = unique_code.to_owned();
                    if c == wanted {
                        RepoError::Conflict
                    } else {
                        RepoError::Unexpected(message)
                    }
                },
                Option::None => RepoError::Unexpected(message),
            }
        },
        StoreFault::Other { message } => RepoError::Unexpected(message),
    }
}

} // verus!
