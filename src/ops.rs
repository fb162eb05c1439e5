use vstd::prelude::*;

verus! {

/// The action that was attempted against a backend.
#[derive(Clone, Copy, Debug, PartialEq, Eq, Structural)]
pub enum Operation {
    Metadata,
    Create,
    Read,
    Write,
    Stat,
    Delete,
    List,
    Presign,
}

impl Operation {
    /// The name under which the operation is displayed.
    pub open spec fn spec_name(self) -> Seq<char> {
        match self {
            Operation::Metadata => "metadata"@,
            Operation::Create => "create"@,
            Operation::Read => "read"@,
            Operation::Write => "write"@,
            Operation::Stat => "stat"@,
            Operation::Delete => "delete"@,
            Operation::List => "list"@,
            Operation::Presign => "presign"@,
        }
    }

    pub fn name(&self) -> (r: &'static str)
        ensures
            r@ == self.spec_name(),
    {
        match self {
            Operation::Metadata => "metadata",
            Operation::Create => "create",
            Operation::Read => "read",
            Operation::Write => "write",
            Operation::Stat => "stat",
            Operation::Delete => "delete",
            Operation::List => "list",
            Operation::Presign => "presign",
        }
    }
}

} // verus!
