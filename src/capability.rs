//! The host capability table: the functions a guest may import, each with
//! its index and its signature.
//!
//! The set is closed. A name outside it, or an import declared with another
//! signature than the table's, is refused with an ordinary error.
use vstd::prelude::*;

verus! {

/// The number of capability functions; their indexes run from 1 to this.
pub const CAPABILITY_COUNT: usize = 16;

/// A value type of the guest's function signatures.
#[derive(Clone, Copy, Debug, PartialEq, Eq, Structural)]
pub enum ValueKind {
    I32,
    I64,
    F32,
    F64,
}

/// A host function that guest code may import.
#[derive(Clone, Copy, Debug, PartialEq, Eq, Structural)]
pub enum CapabilityFunction {
    /// Reports a fatal error of a guest-side allocator with its source
    /// location; the one import with four arguments and no result.
    Abort,
    Debug,
    CommitAppEntry,
    GetAppEntry,
    UpdateEntry,
    RemoveEntry,
    InitGlobals,
    Call,
    LinkEntries,
    GetLinks,
    Query,
    EntryAddress,
    Send,
    Sleep,
    RemoveLink,
    Sign,
}

/// Why an import cannot be bound.
#[derive(Clone, Copy, Debug, PartialEq, Eq, Structural)]
pub enum ImportError {
    /// No capability function has the requested name.
    UnknownName,
    /// The name is known but declared with another signature.
    SignatureMismatch(CapabilityFunction),
}

/// The function with a given index, where there is one.
pub open spec fn function_at(i: nat) -> Option<CapabilityFunction> {
    if i == 1 {
        Some(CapabilityFunction::Abort)
    } else if i == 2 {
        Some(CapabilityFunction::Debug)
    } else if i == 3 {
        Some(CapabilityFunction::CommitAppEntry)
    } else if i == 4 {
        Some(CapabilityFunction::GetAppEntry)
    } else if i == 5 {
        Some(CapabilityFunction::UpdateEntry)
    } else if i == 6 {
        Some(CapabilityFunction::RemoveEntry)
    } else if i == 7 {
        Some(CapabilityFunction::InitGlobals)
    } else if i == 8 {
        Some(CapabilityFunction::Call)
    } else if i == 9 {
        Some(CapabilityFunction::LinkEntries)
    } else if i == 10 {
        Some(CapabilityFunction::GetLinks)
    } else if i == 11 {
        Some(CapabilityFunction::Query)
    } else if i == 12 {
        Some(CapabilityFunction::EntryAddress)
    } else if i == 13 {
        Some(CapabilityFunction::Send)
    } else if i == 14 {
        Some(CapabilityFunction::Sleep)
    } else if i == 15 {
        Some(CapabilityFunction::RemoveLink)
    } else if i == 16 {
        Some(CapabilityFunction::Sign)
    } else {
        None
    }
}

impl CapabilityFunction {
    /// The function's index in the table.
    pub open spec fn index_spec(self) -> nat {
        match self {
            CapabilityFunction::Abort => 1,
            CapabilityFunction::Debug => 2,
            CapabilityFunction::CommitAppEntry => 3,
            CapabilityFunction::GetAppEntry => 4,
            CapabilityFunction::UpdateEntry => 5,
            CapabilityFunction::RemoveEntry => 6,
            CapabilityFunction::InitGlobals => 7,
            CapabilityFunction::Call => 8,
            CapabilityFunction::LinkEntries => 9,
            CapabilityFunction::GetLinks => 10,
            CapabilityFunction::Query => 11,
            CapabilityFunction::EntryAddress => 12,
            CapabilityFunction::Send => 13,
            CapabilityFunction::Sleep => 14,
            CapabilityFunction::RemoveLink => 15,
            CapabilityFunction::Sign => 16,
        }
    }

    /// The name under which guest code imports the function.
    pub open spec fn name_spec(self) -> Seq<char> {
        match self {
            CapabilityFunction::Abort => "abort"@,
            CapabilityFunction::Debug => "hc_debug"@,
            CapabilityFunction::CommitAppEntry => "hc_commit_entry"@,
            CapabilityFunction::GetAppEntry => "hc_get_entry"@,
            CapabilityFunction::UpdateEntry => "hc_update_entry"@,
            CapabilityFunction::RemoveEntry => "hc_remove_entry"@,
            CapabilityFunction::InitGlobals => "hc_init_globals"@,
            CapabilityFunction::Call => "hc_call"@,
            CapabilityFunction::LinkEntries => "hc_link_entries"@,
            CapabilityFunction::GetLinks => "hc_get_links"@,
            CapabilityFunction::Query => "hc_query"@,
            CapabilityFunction::EntryAddress => "hc_entry_address"@,
            CapabilityFunction::Send => "hc_send"@,
            CapabilityFunction::Sleep => "hc_sleep"@,
            CapabilityFunction::RemoveLink => "hc_remove_link"@,
            CapabilityFunction::Sign => "hc_sign"@,
        }
    }

    /// The argument types the function takes: four wide integers for
    /// `Abort`, one encoded word for every other.
    pub open spec fn params_spec(self) -> Seq<ValueKind> {
        match self {
            CapabilityFunction::Abort => seq![
                ValueKind::I64,
                ValueKind::I64,
                ValueKind::I64,
                ValueKind::I64,
            ],
            _ => seq![ValueKind::I64],
        }
    }

    /// The result type: none for `Abort`, one encoded word for every other.
    pub open spec fn result_spec(self) -> Option<ValueKind> {
        match self {
            CapabilityFunction::Abort => None,
            _ => Some(ValueKind::I64),
        }
    }

    /// The function's index in the table.
    pub fn index(self) -> (i: usize)
        ensures
            i == self.index_spec(),
            1 <= i <= CAPABILITY_COUNT,
            function_at(i as nat) == Some(self),
    {
        match self {
            CapabilityFunction::Abort => 1,
            CapabilityFunction::Debug => 2,
            CapabilityFunction::CommitAppEntry => 3,
            CapabilityFunction::GetAppEntry => 4,
            CapabilityFunction::UpdateEntry => 5,
            CapabilityFunction::RemoveEntry => 6,
            CapabilityFunction::InitGlobals => 7,
            CapabilityFunction::Call => 8,
            CapabilityFunction::LinkEntries => 9,
            CapabilityFunction::GetLinks => 10,
            CapabilityFunction::Query => 11,
            CapabilityFunction::EntryAddress => 12,
            CapabilityFunction::Send => 13,
            CapabilityFunction::Sleep => 14,
            CapabilityFunction::RemoveLink => 15,
            CapabilityFunction::Sign => 16,
        }
    }

    /// The function with index `i`, where there is one.
    pub fn from_index(i: usize) -> (r: Option<CapabilityFunction>)
        ensures
            r == function_at(i as nat),
            r matches Some(f) ==> f.index_spec() == i,
    {
        if i == 1 {
            Some(CapabilityFunction::Abort)
        } else if i == 2 {
            Some(CapabilityFunction::Debug)
        } else if i == 3 {
            Some(CapabilityFunction::CommitAppEntry)
        } else if i == 4 {
            Some(CapabilityFunction::GetAppEntry)
        } else if i == 5 {
            Some(CapabilityFunction::UpdateEntry)
        } else if i == 6 {
            Some(CapabilityFunction::RemoveEntry)
        } else if i == 7 {
            Some(CapabilityFunction::InitGlobals)
        } else if i == 8 {
            Some(CapabilityFunction::Call)
        } else if i == 9 {
            Some(CapabilityFunction::LinkEntries)
        } else if i == 10 {
            Some(CapabilityFunction::GetLinks)
        } else if i == 11 {
            Some(CapabilityFunction::Query)
        } else if i == 12 {
            Some(CapabilityFunction::EntryAddress)
        } else if i == 13 {
            Some(CapabilityFunction::Send)
        } else if i == 14 {
            Some(CapabilityFunction::Sleep)
        } else if i == 15 {
            Some(CapabilityFunction::RemoveLink)
        } else if i == 16 {
            Some(CapabilityFunction::Sign)
        } else {
            None
        }
    }

    /// The name under which guest code imports the function.
    pub fn name(self) -> (r: &'static str)
        ensures
            r@ == self.name_spec(),
    {
        match self {
            CapabilityFunction::Abort => "abort",
            CapabilityFunction::Debug => "hc_debug",
            CapabilityFunction::CommitAppEntry => "hc_commit_entry",
            CapabilityFunction::GetAppEntry => "hc_get_entry",
            CapabilityFunction::UpdateEntry => "hc_update_entry",
            CapabilityFunction::RemoveEntry => "hc_remove_entry",
            CapabilityFunction::InitGlobals => "hc_init_globals",
            CapabilityFunction::Call => "hc_call",
            CapabilityFunction::LinkEntries => "hc_link_entries",
            CapabilityFunction::GetLinks => "hc_get_links",
            CapabilityFunction::Query => "hc_query",
            CapabilityFunction::EntryAddress => "hc_entry_address",
            CapabilityFunction::Send => "hc_send",
            CapabilityFunction::Sleep => "hc_sleep",
            CapabilityFunction::RemoveLink => "hc_remove_link",
            CapabilityFunction::Sign => "hc_sign",
        }
    }

    /// The argument types the function takes.
    pub fn params(self) -> (r: Vec<ValueKind>)
        ensures
            r@ == self.params_spec(),
    {
        match self {
            CapabilityFunction::Abort => vec![
                ValueKind::I64,
                ValueKind::I64,
                ValueKind::I64,
                ValueKind::I64,
            ],
            _ => vec![ValueKind::I64],
        }
    }

    /// The result type, if the function returns one.
    pub fn result(self) -> (r: Option<ValueKind>)
        ensures
            r == self.result_spec(),
    {
        match self {
            CapabilityFunction::Abort => None,
            _ => Some(ValueKind::I64),
        }
    }

    /// Whether an import declared with `params` and `result` has this
    /// function's signature.
    pub fn accepts(self, params: &Vec<ValueKind>, result: Option<ValueKind>) -> (r: bool)
        ensures
            r == (params@ == self.params_spec() && result == self.result_spec()),
    {
        let expected = self.params();
        if params.len() != expected.len() {
            return false;
        }
        let mut i: usize = 0;
        while i < params.len()
            invariant
                params@.len() == expected@.len(),
                expected@ == self.params_spec(),
                i <= params@.len(),
                params@.subrange(0, i as int) == expected@.subrange(0, i as int),
            decreases params@.len() - i,
        {
            if params[i] != expected[i] {
                return false;
            }
            i = i + 1;
            assert(params@.subrange(0, i as int) =~= expected@.subrange(0, i as int)) by {
                assert(params@.subrange(0, i - 1) == expected@.subrange(0, i - 1));
            }
        }
        assert(params@ =~= params@.subrange(0, i as int));
        assert(expected@ =~= expected@.subrange(0, i as int));
        match (result, self.result()) {
            (None, None) => true,
            (Some(a), Some(b)) => a == b,
            _ => false,
        }
    }
}

/// Every function sits at its own index.
pub proof fn lemma_function_at_index(f: CapabilityFunction)
    ensures
        function_at(f.index_spec()) == Some(f),
        1 <= f.index_spec() <= CAPABILITY_COUNT,
{
}

/// No two capability functions share a name.
pub proof fn lemma_names_distinct(f: CapabilityFunction, g: CapabilityFunction)
    ensures
        f.name_spec() == g.name_spec() ==> f == g,
{
    reveal_strlit("abort");
    reveal_strlit("hc_debug");
    reveal_strlit("hc_commit_entry");
    reveal_strlit("hc_get_entry");
    reveal_strlit("hc_update_entry");
    reveal_strlit("hc_remove_entry");
    reveal_strlit("hc_init_globals");
    reveal_strlit("hc_call");
    reveal_strlit("hc_link_entries");
    reveal_strlit("hc_get_links");
    reveal_strlit("hc_query");
    reveal_strlit("hc_entry_address");
    reveal_strlit("hc_send");
    reveal_strlit("hc_sleep");
    reveal_strlit("hc_remove_link");
    reveal_strlit("hc_sign");
    if f.name_spec() == g.name_spec() {
        let a = f.name_spec();
        let b = g.name_spec();
        assert(a.len() == b.len());
        assert(a[3] == b[3] && a[4] == b[4]);
        if a.len() >= 8 {
            assert(a[7] == b[7]);
        }
    }
}

fn same_text(a: &str, b: &str) -> (r: bool)
    ensures
        r == (a@ == b@),
{
    a.to_owned() == b.to_owned()
}

/// The capability function imported under `name`.
pub fn resolve(name: &str) -> (r: Result<CapabilityFunction, ImportError>)
    ensures
        r matches Ok(f) ==> f.name_spec() == name@,
        forall|f: CapabilityFunction|
            f.name_spec() == name@ ==> r == Ok::<CapabilityFunction, ImportError>(f),
        r is Err ==> r == Err::<CapabilityFunction, ImportError>(ImportError::UnknownName)
            && forall|f: CapabilityFunction| f.name_spec() != name@,
{
    let mut i: usize = 1;
    while i <= CAPABILITY_COUNT
        invariant
            1 <= i <= CAPABILITY_COUNT + 1,
            forall|j: nat|
                1 <= j < i ==> ((#[trigger] function_at(j)) matches Some(g) && g.name_spec()
                    != name@),
        decreases CAPABILITY_COUNT + 1 - i,
    {
        if let Some(f) = CapabilityFunction::from_index(i) {
            if same_text(f.name(), name) {
                proof {
                    assert forall|g: CapabilityFunction| g.name_spec() == name@ implies g == f by {
                        lemma_names_distinct(f, g);
                    }
                }
                return Ok(f);
            }
        }
        i = i + 1;
    }
    assert forall|f: CapabilityFunction| f.name_spec() != name@ by {
        lemma_function_at_index(f);
        assert(function_at(f.index_spec()) matches Some(g) && g.name_spec() != name@);
    }
    Err(ImportError::UnknownName)
}

/// Binds an import that guest code declares under `name` with `params` and
/// `result`: the named function where the signatures agree.
pub fn check_import(name: &str, params: &Vec<ValueKind>, result: Option<ValueKind>) -> (r: Result<
    CapabilityFunction,
    ImportError,
>)
    ensures
        r matches Ok(f) ==> f.name_spec() == name@ && params@ == f.params_spec() && result
            == f.result_spec(),
        r matches Err(ImportError::SignatureMismatch(f)) ==> f.name_spec() == name@ && !(params@
            == f.params_spec() && result == f.result_spec()),
        forall|f: CapabilityFunction|
            f.name_spec() == name@ ==> r == if params@ == f.params_spec() && result
                == f.result_spec() {
                Ok::<CapabilityFunction, ImportError>(f)
            } else {
                Err::<CapabilityFunction, ImportError>(ImportError::SignatureMismatch(f))
            },
        r == Err::<CapabilityFunction, ImportError>(ImportError::UnknownName) <==> forall|
            f: CapabilityFunction,
        | f.name_spec() != name@,
{
    match resolve(name) {
        Ok(f) => {
            if f.accepts(params, result) {
                Ok(f)
            } else {
                Err(ImportError::SignatureMismatch(f))
            }
        },
        Err(e) => Err(e),
    }
}

} // verus!
