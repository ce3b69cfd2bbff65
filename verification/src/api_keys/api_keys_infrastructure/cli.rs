//! The commands of the key-management tool.
//!
//! A command is carried out against the services and yields the line that
//! the tool prints. Reading the arguments and printing belong to the
//! program around this crate.

use crate::api_keys::api_keys_application::{
    is_created, is_creation_failure, lemma_issued_key_round_trips, ApiKeyCreationService,
    ApiKeyDeletionService,
};
use crate::api_keys::api_keys_domain::{decoded, ApiKey, ApiKeyRepository};
use crate::api_keys::errors::ApiKeyError;
use vstd::prelude::*;

verus! {

/// What the tool is asked to do.
#[derive(Debug)]
pub enum Action {
    /// Create a key and show it.
    Gen,
    /// Delete the key with this id.
    Delete { id: String },
}

/// One invocation of the tool.
#[derive(Debug)]
pub struct Cli {
    pub action: Action,
}

/// The line that reports a deletion.
pub open spec fn deletion_report(id: Seq<char>) -> Seq<char> {
    "Deleted API key with ID: "@ + id
}

impl Action {
    /// The line that shows a key that was created: its text form. This is
    /// the one time the token is shown.
    pub fn report_created(api_key: &ApiKey) -> (line: String)
        ensures
            line@ == api_key@.encoding(),
    {
        api_key.to_string()
    }

    /// The line that reports the deletion of the key with this id.
    pub fn report_deleted(id: &str) -> (line: String)
        ensures
            line@ == deletion_report(id@),
    {
        String::from_str("Deleted API key with ID: ").concat(id)
    }
}

impl Cli {
    /// Carries out the command and returns the line to print.
    ///
    /// `Gen` issues a key through `creation` and returns its text form: the
    /// one time the token is shown. `Delete` removes the record through
    /// `deletion` and returns a report that names the id. The service that
    /// the command does not use is left as it was, and a command that fails
    /// leaves both as they were.
    pub fn run<R: ApiKeyRepository>(
        self,
        creation: &mut ApiKeyCreationService<R>,
        deletion: &mut ApiKeyDeletionService<R>,
    ) -> (res: Result<String, ApiKeyError>)
        ensures
            final(creation).repo.may_fail() == old(creation).repo.may_fail(),
            final(deletion).repo.may_fail() == old(deletion).repo.may_fail(),
            match self.action {
                Action::Gen => {
                    &&& final(deletion).repo.records() == old(deletion).repo.records()
                    &&& match res {
                        Ok(line) => decoded(line@) matches Some(key) && is_created(
                            key,
                            old(creation).repo.records(),
                            final(creation).repo.records(),
                        ),
                        Err(e) => {
                            &&& final(creation).repo.records() == old(creation).repo.records()
                            &&& is_creation_failure(
                                e,
                                old(creation).repo.records(),
                                old(creation).repo.may_fail(),
                            )
                        },
                    }
                },
                Action::Delete { id } => {
                    &&& final(creation).repo.records() == old(creation).repo.records()
                    &&& match res {
                        Ok(line) => {
                            &&& line@ == deletion_report(id@)
                            &&& final(deletion).repo.records() == old(deletion).repo.records().remove(id@)
                        },
                        Err(e) => {
                            &&& e is DatabaseError
                            &&& old(deletion).repo.may_fail()
                            &&& final(deletion).repo.records() == old(deletion).repo.records()
                        },
                    }
                },
            },
    {
        match self.action {
            Action::Gen => {
                match creation.create() {
                    Ok(api_key) => {
                        proof {
                            lemma_issued_key_round_trips(api_key@);
                        }
                        Ok(Action::report_created(&api_key))
                    },
                    Err(e) => Err(e),
                }
            },
            Action::Delete { id } => {
                match deletion.delete(id.as_str()) {
                    Ok(()) => Ok(Action::report_deleted(id.as_str())),
                    Err(e) => Err(e),
                }
            },
        }
    }
}

} // verus!
