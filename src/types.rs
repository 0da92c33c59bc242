//! Small shared enumerations: the repository a synced commit came from, and
//! how a client reacts to a failed call.
use vstd::prelude::*;

verus! {

/// The repository that originally contained a synced commit.
#[derive(Copy, Clone, Debug, Eq, Hash, PartialEq, Structural)]
pub enum SyncedCommitSourceRepo {
    Large,
    Small,
}

/// How a source repository is stored in a database column.
pub open spec fn source_repo_bytes(r: SyncedCommitSourceRepo) -> Seq<u8> {
    match r {
        SyncedCommitSourceRepo::Large => seq![108u8, 97, 114, 103, 101],
        SyncedCommitSourceRepo::Small => seq![115u8, 109, 97, 108, 108],
    }
}

impl SyncedCommitSourceRepo {
    /// The column value: `large` or `small`.
    pub fn to_db_bytes(self) -> (r: Vec<u8>)
        ensures
            r@ == source_repo_bytes(self),
    {
        let r = match self {
            SyncedCommitSourceRepo::Large => vec![108u8, 97, 114, 103, 101],
            SyncedCommitSourceRepo::Small => vec![115u8, 109, 97, 108, 108],
        };
        assert(r@ =~= source_repo_bytes(self));
        r
    }

    /// Reads a column value; `None` unless it is `large` or `small`.
    pub fn from_db_bytes(b: &[u8]) -> (r: Option<SyncedCommitSourceRepo>)
        ensures
            r is Some ==> source_repo_bytes(r.unwrap()) == b@,
            r is None ==> forall|s: SyncedCommitSourceRepo| source_repo_bytes(s) != b@,
    {
        if b.len() != 5 {
            return None;
        }
        if b[0] == 108 && b[1] == 97 && b[2] == 114 && b[3] == 103 && b[4] == 101 {
            assert(b@ =~= source_repo_bytes(SyncedCommitSourceRepo::Large));
            Some(SyncedCommitSourceRepo::Large)
        } else if b[0] == 115 && b[1] == 109 && b[2] == 97 && b[3] == 108 && b[4] == 108 {
            assert(b@ =~= source_repo_bytes(SyncedCommitSourceRepo::Small));
            Some(SyncedCommitSourceRepo::Small)
        } else {
            assert forall|s: SyncedCommitSourceRepo| source_repo_bytes(s) != b@ by {
                if source_repo_bytes(s) == b@ {
                    assert(source_repo_bytes(s)[0] == b@[0]);
                    assert(source_repo_bytes(s)[1] == b@[1]);
                    assert(source_repo_bytes(s)[2] == b@[2]);
                    assert(source_repo_bytes(s)[3] == b@[3]);
                    assert(source_repo_bytes(s)[4] == b@[4]);
                }
            }
            None
        }
    }
}

#[derive(Copy, Clone, Debug, PartialEq, Eq, Structural)]
pub enum ErrorHandlingStrategy {
    Reconnect,
    Retry,
    Abort,
}

pub trait HasErrorHandlingStrategy {
    fn get_error_handling_strategy(&self) -> ErrorHandlingStrategy;
}

/// The three ways a Thrift call can fail.
#[derive(Copy, Clone, Debug, PartialEq, Eq, Structural)]
pub enum ThriftFailure {
    /// The transport or protocol failed.
    ThriftError,
    /// The server raised an application exception.
    ApplicationException,
    /// The method raised one of its declared exceptions.
    Declared,
}

impl ThriftFailure {
    /// A broken transport calls for a new connection, an application
    /// exception for a retry, and a declared exception for giving up.
    pub fn strategy(&self) -> (r: ErrorHandlingStrategy)
        ensures
            r == match *self {
                ThriftFailure::ThriftError => ErrorHandlingStrategy::Reconnect,
                ThriftFailure::ApplicationException => ErrorHandlingStrategy::Retry,
                ThriftFailure::Declared => ErrorHandlingStrategy::Abort,
            },
    {
        match self {
            ThriftFailure::ThriftError => ErrorHandlingStrategy::Reconnect,
            ThriftFailure::ApplicationException => ErrorHandlingStrategy::Retry,
            ThriftFailure::Declared => ErrorHandlingStrategy::Abort,
        }
    }
}

impl HasErrorHandlingStrategy for ThriftFailure {
    fn get_error_handling_strategy(&self) -> ErrorHandlingStrategy {
        self.strategy()
    }
}

} // verus!
