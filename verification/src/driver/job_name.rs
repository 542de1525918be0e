//! The names under which a job's document reaches the spooler.

use vstd::prelude::*;
use crate::text::{append_decimal, decimal, decimal_tells_numbers_apart};

verus! {

/// The name of the document of job number `n`.
pub open spec fn document_title(n: nat) -> Seq<char> {
    "Raw document #"@ + decimal(n)
}

/// The data type under which every document is started: raw bytes that the
/// spooler passes on untouched.
pub open spec fn raw_data_type() -> Seq<char> {
    "Raw"@
}

/// The name of the document of job number `n`: `Raw document #` and the
/// number in decimal.
pub fn document_name(n: usize) -> (name: String)
    ensures
        name@ == document_title(n as nat),
{
    let mut name = "Raw document #".to_owned();
    append_decimal(&mut name, n);
    name
}

/// The data type under which every document is started.
pub fn data_type() -> (name: String)
    ensures
        name@ == raw_data_type(),
{
    "Raw".to_owned()
}

/// Jobs with different numbers start documents with different names.
pub proof fn document_titles_differ(a: nat, b: nat)
    requires
        a != b,
    ensures
        document_title(a) != document_title(b),
{
    if document_title(a) == document_title(b) {
        let prefix = "Raw document #"@;
        assert(decimal(a) =~= document_title(a).subrange(
            prefix.len() as int,
            document_title(a).len() as int,
        ));
        assert(decimal(b) =~= document_title(b).subrange(
            prefix.len() as int,
            document_title(b).len() as int,
        ));
        decimal_tells_numbers_apart(a, b);
    }
}

} // verus!
