use vstd::prelude::*;

verus! {

/// How a candidate is started.
#[derive(Clone, Copy, PartialEq, Eq, Structural, Debug)]
pub enum CandidateKind {
    /// A script, run through the interpreter.
    Script,
    /// A compiled executable, run directly.
    NativeBinary,
}

/// One place where the backend may be found.
pub struct CandidatePath {
    pub path: String,
    pub kind: CandidateKind,
}

/// The candidates in priority order: development paths before packaged ones.
pub struct CandidateList {
    pub entries: Vec<CandidatePath>,
}

/// Index of the first present candidate, if any.
pub open spec fn first_present(present: Seq<bool>) -> Option<int>
    decreases present.len(),
{
    if present.len() == 0 {
        None
    } else {
        match first_present(present.drop_last()) {
            Some(i) => Some(i),
            None => if present.last() {
                Some(present.len() - 1)
            } else {
                None
            },
        }
    }
}

proof fn lemma_first_present_push(present: Seq<bool>, b: bool)
    ensures
        first_present(present.push(b)) == match first_present(present) {
            Some(i) => Some(i),
            None => if b {
                Some(present.len() as int)
            } else {
                None
            },
        },
{
    assert(present.push(b).drop_last() =~= present);
}

/// `first_present` is the least present index, and there is none exactly
/// when nothing is present.
pub proof fn lemma_first_present_is_least(present: Seq<bool>)
    ensures
        match first_present(present) {
            Some(i) => 0 <= i < present.len() && present[i] && forall|j: int|
                0 <= j < i ==> !#[trigger] present[j],
            None => forall|j: int| 0 <= j < present.len() ==> !#[trigger] present[j],
        },
    decreases present.len(),
{
    if present.len() > 0 {
        let p = present.drop_last();
        lemma_first_present_is_least(p);
        assert forall|j: int| 0 <= j < p.len() implies p[j] == present[j] by {}
    }
}

impl CandidatePath {
    fn new(path: &str, kind: CandidateKind) -> (r: CandidatePath)
        ensures
            r.path@ == path@,
            r.kind == kind,
    {
        CandidatePath { path: String::from_str(path), kind }
    }
}

impl CandidateList {
    /// The list is never empty.
    pub open spec fn wf(&self) -> bool {
        self.entries.len() > 0
    }

    /// The standard search order: the script and the built binary relative to
    /// the development checkout, then a binary beside the application.
    pub fn standard() -> (r: CandidateList)
        ensures
            r.wf(),
            r.entries.len() == 5,
            r.entries[0].path@ == "../server/main.py"@,
            r.entries[0].kind == CandidateKind::Script,
            r.entries[1].path@ == "./server/main.py"@,
            r.entries[1].kind == CandidateKind::Script,
            r.entries[2].path@ == "../server/dist/main.exe"@,
            r.entries[2].kind == CandidateKind::NativeBinary,
            r.entries[3].path@ == "./server/dist/main.exe"@,
            r.entries[3].kind == CandidateKind::NativeBinary,
            r.entries[4].path@ == "server.exe"@,
            r.entries[4].kind == CandidateKind::NativeBinary,
    {
        let mut entries: Vec<CandidatePath> = Vec::new();
        entries.push(CandidatePath::new("../server/main.py", CandidateKind::Script));
        entries.push(CandidatePath::new("./server/main.py", CandidateKind::Script));
        entries.push(CandidatePath::new("../server/dist/main.exe", CandidateKind::NativeBinary));
        entries.push(CandidatePath::new("./server/dist/main.exe", CandidateKind::NativeBinary));
        entries.push(CandidatePath::new("server.exe", CandidateKind::NativeBinary));
        CandidateList { entries }
    }

    /// Picks the first candidate, in priority order, that exists on disk;
    /// `present[i]` tells whether candidate `i` exists.
    pub fn locate(&self, present: &Vec<bool>) -> (r: Option<usize>)
        requires
            present.len() == self.entries.len(),
        ensures
            r matches Some(i) ==> Some(i as int) == first_present(present@),
            r is None ==> first_present(present@) is None,
            r matches Some(i) ==> i < present.len() && present@[i as int] && forall|j: int|
                0 <= j < i ==> !#[trigger] present@[j],
            r is None ==> forall|j: int| 0 <= j < present.len() ==> !#[trigger] present@[j],
    {
        proof {
            lemma_first_present_is_least(present@);
        }
        let mut i: usize = 0;
        while i < present.len()
            invariant
                i <= present.len(),
                first_present(present@.subrange(0, i as int)) is None,
            decreases present.len() - i,
        {
            proof {
                lemma_first_present_push(present@.subrange(0, i as int), present@[i as int]);
                assert(present@.subrange(0, i as int).push(present@[i as int]) =~= present@.subrange(
                    0,
                    i + 1,
                ));
            }
            if present[i] {
                proof {
                    lemma_first_present_prefix(present@, i as int + 1);
                    assert(first_present(present@) == Some(i as int));
                    lemma_first_present_is_least(present@);
                    assert(present@[i as int]);
                    assert(forall|j: int| 0 <= j < i ==> !#[trigger] present@[j]);
                }
                return Some(i);
            }
            i = i + 1;
        }
        assert(present@.subrange(0, i as int) =~= present@);
        None
    }
}

/// Where a prefix already holds a present entry, the whole sequence has the
/// same first present index.
proof fn lemma_first_present_prefix(present: Seq<bool>, n: int)
    requires
        0 <= n <= present.len(),
        first_present(present.subrange(0, n)) is Some,
    ensures
        first_present(present) == first_present(present.subrange(0, n)),
    decreases present.len() - n,
{
    if n < present.len() {
        lemma_first_present_push(present.subrange(0, n), present[n]);
        assert(present.subrange(0, n).push(present[n]) =~= present.subrange(0, n + 1));
        lemma_first_present_prefix(present, n + 1);
    } else {
        assert(present.subrange(0, n) =~= present);
    }
}

} // verus!
