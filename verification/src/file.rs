//! Open CGNS files and the bases they hold.

use vstd::prelude::*;
use vstd::string::StringExecFns;
use crate::base::{Base, BaseView};
use crate::error::{CgnsError, CgnsResult, from_sys_result, sys_result};
use crate::util::{lemma_failure_index_props, lemma_search_over_readable, entry_error, EntryMatch, entry_text, passes_over, stop_index, failure_index, search_outcome, listing_outcome, lemma_stop_index, lemma_failure_index, reported_entries, reported_entry, match_entry, entry_name, not_found_text, not_found_message};

verus! {

/// The state of an open file: the handle the C library gave it and whether
/// it has been closed.
pub struct FileView {
    pub handle: i32,
    pub closed: bool,
}

/// An open CGNS file.
///
/// The file is opened by the C library, which hands back a handle; the
/// handle stays valid until the file is closed.  Closing twice is safe: the
/// second close does nothing.
pub struct CgnsFile {
    pub(crate) fn_: i32,
    closed: bool,
}

impl View for CgnsFile {
    type V = FileView;

    closed spec fn view(&self) -> FileView {
        FileView { handle: self.fn_, closed: self.closed }
    }
}

/// What opening gives, from the C library's answer: the open file for its
/// handle, or `CgnsCode(-1)` when it failed.
pub open spec fn opened_file(opened: Result<i32, String>, r: CgnsResult<CgnsFile>) -> bool {
    match opened {
        Ok(h) => r matches Ok(f) && f@ == (FileView { handle: h, closed: false }),
        Err(_) => r matches Err(e) && e == CgnsError::CgnsCode(-1i32),
    }
}

/// The outcome of closing a file in state `before`, given what the C
/// library reported for releasing its handle (consulted only when the file
/// is still open): the result and the state after.
pub open spec fn close_outcome(before: FileView, released: Result<(), String>) -> (
    CgnsResult<()>,
    FileView,
) {
    if before.closed {
        (Ok(()), before)
    } else {
        match released {
            Ok(_) => (Ok(()), FileView { handle: before.handle, closed: true }),
            Err(_) => (Err(CgnsError::CgnsCode(-1i32)), before),
        }
    }
}

/// Closing is idempotent: once a close has succeeded, closing again
/// succeeds, whatever the C library would report, and changes nothing.
pub proof fn lemma_close_idempotent(
    f: FileView,
    first: Result<(), String>,
    second: Result<(), String>,
)
    requires
        close_outcome(f, first).0 is Ok,
    ensures
        close_outcome(f, first).1.closed,
        close_outcome(f, first).1.handle == f.handle,
        close_outcome(close_outcome(f, first).1, second) == (
        Ok::<(), CgnsError>(()),
        close_outcome(f, first).1,
        ),
{
}

/// A failed close leaves the file open, so it can be closed again.
pub proof fn lemma_failed_close_keeps_open(f: FileView, released: Result<(), String>)
    requires
        close_outcome(f, released).0 is Err,
    ensures
        close_outcome(f, released).1 == f,
        !f.closed,
{
}

/// Looking a base up by name agrees with listing the bases: when the
/// listing of the first `n` bases succeeds, the lookup finds the first
/// listed base with that name, and reports `NotFound` exactly when no
/// listed base has it.
pub proof fn lemma_base_lookup_agrees_with_listing(
    h: i32,
    name: Seq<char>,
    n: int,
    names: Seq<Result<Vec<u8>, String>>,
    listed: CgnsResult<Vec<Base>>,
    found: CgnsResult<Base>,
)
    requires
        0 <= n <= names.len(),
        listing_outcome(
            reported_entries(names),
            n,
            listed,
            |b: Base, k: int, t: Seq<char>|
                b@ == (BaseView { file: h, index: (k + 1) as i32, name: t }),
        ),
        search_outcome(
            reported_entries(names),
            name,
            n,
            found,
            |b: Base, k: int| b@ == (BaseView { file: h, index: (k + 1) as i32, name: name }),
            not_found_text("base"@, name),
        ),
        listed is Ok,
    ensures
        found matches Ok(b) ==> exists|j: int|
            0 <= j < n && listed->Ok_0@[j]@ == b@ && forall|i: int|
                0 <= i < j ==> (#[trigger] listed->Ok_0@[i])@.name != name,
        found is Err ==> found matches Err(CgnsError::NotFound(_)),
        found is Err ==> forall|j: int| 0 <= j < n ==> (#[trigger] listed->Ok_0@[j])@.name != name,
{
    let entries = reported_entries(names);
    lemma_failure_index_props(entries, 0, n);
    if failure_index(entries, 0, n) < n {
        assert(entry_error(entries[failure_index(entries, 0, n)], listed->Err_0));
    }
    lemma_search_over_readable(entries, name, n);
    let v = listed->Ok_0;
    assert forall|j: int| 0 <= j < n implies (#[trigger] v@[j])@.name == entry_text(
        entries[j],
    )->Some_0 by {
    }
    let k = stop_index(entries, name, 0, n);
    if k < n {
        assert(v@[k]@.name == name);
        assert(found matches Ok(b) && b@ == v@[k]@);
        assert forall|i: int| 0 <= i < k implies (#[trigger] v@[i])@.name != name by {
            assert(entry_text(entries[i]) != Some(name));
        }
    } else {
        assert forall|j: int| 0 <= j < n implies (#[trigger] v@[j])@.name != name by {
            assert(entry_text(entries[j]) != Some(name));
        }
    }
}

impl CgnsFile {
    fn from_handle(opened: Result<i32, String>) -> (r: CgnsResult<CgnsFile>)
        ensures
            opened_file(opened, r),
    {
        match opened {
            Ok(fn_) => Ok(CgnsFile { fn_, closed: false }),
            Err(_) => Err(CgnsError::CgnsCode(-1)),
        }
    }

    /// Take a file opened for reading; `opened` is the handle the C
    /// library returned, or its failure.
    pub fn open(opened: Result<i32, String>) -> (r: CgnsResult<CgnsFile>)
        ensures
            opened_file(opened, r),
    {
        Self::from_handle(opened)
    }

    /// Take a newly created file; `opened` is the handle the C library
    /// returned, or its failure.
    pub fn create(opened: Result<i32, String>) -> (r: CgnsResult<CgnsFile>)
        ensures
            opened_file(opened, r),
    {
        Self::from_handle(opened)
    }

    /// Take a file opened for modification; `opened` is the handle the C
    /// library returned, or its failure.
    pub fn modify(opened: Result<i32, String>) -> (r: CgnsResult<CgnsFile>)
        ensures
            opened_file(opened, r),
    {
        Self::from_handle(opened)
    }

    /// The handle the C library gave this file.
    pub fn handle(&self) -> (h: i32)
        ensures
            h == self@.handle,
    {
        self.fn_
    }

    /// Whether the file is still open, so that closing it must release its
    /// handle in the C library.
    pub fn needs_close(&self) -> (b: bool)
        ensures
            b == !self@.closed,
    {
        !self.closed
    }

    /// Close the file.  `released` is what the C library reported for
    /// releasing the handle; it is consulted only while the file is open
    /// (see [`needs_close`](Self::needs_close)).  Closing a closed file is a
    /// no-op that succeeds; a failed release leaves the file open.
    pub fn close(&mut self, released: Result<(), String>) -> (r: CgnsResult<()>)
        ensures
            (r, final(self)@) == close_outcome(old(self)@, released),
    {
        if !self.closed {
            match released {
                Ok(_) => {
                    self.closed = true;
                },
                Err(_) => {
                    return Err(CgnsError::CgnsCode(-1));
                },
            }
        }
        Ok(())
    }

    /// The base just written under `name`; `written` is the index the C
    /// library gave it, or its failure.
    pub fn create_base(&self, name: &str, written: Result<i32, String>) -> (r: CgnsResult<Base>)
        ensures
            match written {
                Ok(i) => r matches Ok(b) && b@ == (BaseView {
                    file: self@.handle,
                    index: i,
                    name: name@,
                }),
                Err(_) => r matches Err(e) && e == CgnsError::CgnsCode(-1i32),
            },
    {
        match written {
            Ok(index) => Ok(Base::new(self.fn_, index, String::from_str(name))),
            Err(_) => Err(CgnsError::CgnsCode(-1)),
        }
    }

    /// The number of bases, from the count the C library reported.
    pub fn base_count(&self, nbases: Result<i32, String>) -> (r: CgnsResult<i32>)
        ensures
            r == sys_result(nbases),
    {
        from_sys_result(nbases)
    }

    /// Find a base by name.
    ///
    /// `nbases` is the base count the C library reported and `names[i]` the
    /// name buffer it filled for base `i + 1` (or the failure to read it).
    /// Bases are examined in order; the first whose name is `name` is
    /// returned, a read failure or undecodable name met before it is
    /// reported, and `NotFound` when no base has that name.
    #[verifier::loop_isolation(false)]
    pub fn base(
        &self,
        name: &str,
        nbases: Result<i32, String>,
        names: &Vec<Result<Vec<u8>, String>>,
    ) -> (r: CgnsResult<Base>)
        requires
            nbases matches Ok(n) ==> n <= names@.len(),
        ensures
            nbases is Err ==> (r matches Err(e) && e == CgnsError::CgnsCode(-1i32)),
            nbases matches Ok(n) ==> search_outcome(
                reported_entries(names@),
                name@,
                n as int,
                r,
                |b: Base, k: int|
                    b@ == (BaseView { file: self@.handle, index: (k + 1) as i32, name: name@ }),
                not_found_text("base"@, name@),
            ),
    {
        let n = self.base_count(nbases)?;
        let ghost entries = reported_entries(names@);
        let mut i: i32 = 0;
        while i < n
            invariant
                0 <= i,
                i <= n || n < 0,
                n <= names@.len(),
                entries == reported_entries(names@),
                forall|j: int| 0 <= j < i ==> passes_over(entries[j], name@),
            decreases n - i,
        {
            let entry = reported_entry(names, i as usize);
            match match_entry(entry, name) {
                EntryMatch::Matches => {
                    proof {
                        lemma_stop_index(entries, name@, 0, n as int, i as int);
                    }
                    return Ok(Base::new(self.fn_, i + 1, String::from_str(name)));
                },
                EntryMatch::Differs => {},
                EntryMatch::Unreadable(err) => {
                    proof {
                        lemma_stop_index(entries, name@, 0, n as int, i as int);
                    }
                    return Err(err);
                },
            }
            i = i + 1;
        }
        proof {
            if n >= 0 {
                lemma_stop_index(entries, name@, 0, n as int, n as int);
            }
        }
        Err(CgnsError::NotFound(not_found_message("base", name)))
    }

    /// List all bases with their names.
    ///
    /// `nbases` is the base count the C library reported and `names[i]` the
    /// name buffer it filled for base `i + 1` (or the failure to read it).
    /// Base `i` of the list has index `i + 1`; the first read failure or
    /// undecodable name is reported instead.
    #[verifier::loop_isolation(false)]
    pub fn bases(&self, nbases: Result<i32, String>, names: &Vec<Result<Vec<u8>, String>>) -> (r:
        CgnsResult<Vec<Base>>)
        requires
            nbases matches Ok(n) ==> 0 <= n <= names@.len(),
        ensures
            nbases is Err ==> (r matches Err(e) && e == CgnsError::CgnsCode(-1i32)),
            nbases matches Ok(n) ==> listing_outcome(
                reported_entries(names@),
                n as int,
                r,
                |b: Base, k: int, t: Seq<char>|
                    b@ == (BaseView { file: self@.handle, index: (k + 1) as i32, name: t }),
            ),
    {
        let n = self.base_count(nbases)?;
        let ghost entries = reported_entries(names@);
        let mut bases: Vec<Base> = Vec::new();
        let mut i: i32 = 0;
        while i < n
            invariant
                0 <= i <= n,
                n <= names@.len(),
                entries == reported_entries(names@),
                bases@.len() == i,
                forall|j: int| 0 <= j < i ==> entry_text(entries[j]) is Some,
                forall|j: int|
                    0 <= j < i ==> #[trigger] bases@[j]@ == (BaseView {
                        file: self@.handle,
                        index: (j + 1) as i32,
                        name: entry_text(entries[j])->Some_0,
                    }),
            decreases n - i,
        {
            let entry = reported_entry(names, i as usize);
            match entry_name(entry) {
                Ok(base_name) => {
                    bases.push(Base::new(self.fn_, i + 1, base_name));
                },
                Err(err) => {
                    proof {
                        lemma_failure_index(entries, 0, n as int, i as int);
                    }
                    return Err(err);
                },
            }
            i = i + 1;
        }
        proof {
            lemma_failure_index(entries, 0, n as int, n as int);
        }
        Ok(bases)
    }
}

} // verus!
