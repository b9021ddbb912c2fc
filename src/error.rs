use vstd::prelude::*;

verus! {

/// Every way an invocation can fail. Variants that wrap a `String` carry the
/// description of the underlying cause.
#[derive(Debug)]
pub enum WorkspaceError {
    HomeNotFound,
    Canonicalization(String),
    TemplateMissing,
    DirectoryCreation(String),
    CopyFailed(String),
    RenameFailed(String),
    UnknownSubcommand(String),
    MissingSubcommand,
}

/// The text shown to the user for an error.
pub open spec fn message_of(e: WorkspaceError) -> Seq<char> {
    match e {
        WorkspaceError::HomeNotFound => "failed to get home dir"@,
        WorkspaceError::Canonicalization(d) => "canonicalization failed: "@ + d@,
        WorkspaceError::TemplateMissing => "workspace template directory does not exist."@,
        WorkspaceError::DirectoryCreation(d) => "failed to create directory: "@ + d@,
        WorkspaceError::CopyFailed(d) => "failed to copy template directory: "@ + d@,
        WorkspaceError::RenameFailed(d) => "failed to rename copied directory: "@ + d@,
        WorkspaceError::UnknownSubcommand(s) => "unknown subcommand: "@ + s@,
        WorkspaceError::MissingSubcommand => "invalid number of arguments."@,
    }
}

fn prefixed(prefix: &str, detail: &String) -> (r: String)
    ensures
        r@ == prefix@ + detail@,
{
    let mut r = String::from_str(prefix);
    r.append(detail.as_str());
    r
}

impl WorkspaceError {
    pub fn message(&self) -> (r: String)
        ensures
            r@ == message_of(*self),
    {
        match self {
            WorkspaceError::HomeNotFound => String::from_str("failed to get home dir"),
            WorkspaceError::Canonicalization(d) => prefixed("canonicalization failed: ", d),
            WorkspaceError::TemplateMissing => String::from_str(
                "workspace template directory does not exist.",
            ),
            WorkspaceError::DirectoryCreation(d) => prefixed("failed to create directory: ", d),
            WorkspaceError::CopyFailed(d) => prefixed("failed to copy template directory: ", d),
            WorkspaceError::RenameFailed(d) => prefixed("failed to rename copied directory: ", d),
            WorkspaceError::UnknownSubcommand(s) => prefixed("unknown subcommand: ", s),
            WorkspaceError::MissingSubcommand => String::from_str("invalid number of arguments."),
        }
    }
}

} // verus!
