//! Decoding of the fixed-size, NUL-terminated name buffers that the CGNS C
//! library fills, and checks on names passed to it.

use vstd::prelude::*;
use vstd::string::StringExecFns;
use vstd::string::StringSliceAdditionalSpecFns;
use vstd::utf8::*;
use crate::error::{CgnsError, CgnsResult};

verus! {

/// Number of bytes before the first NUL byte of `buf` (all of `buf` when it
/// holds no NUL).
pub open spec fn c_string_end(buf: Seq<u8>) -> nat
    decreases buf.len(),
{
    if buf.len() == 0 {
        0
    } else if buf[0] == 0 {
        0
    } else {
        1 + c_string_end(buf.drop_first())
    }
}

/// The bytes of the C string held in `buf`: everything before the first NUL.
pub open spec fn c_string_bytes(buf: Seq<u8>) -> Seq<u8> {
    buf.take(c_string_end(buf) as int)
}

/// The text of the C string held in `buf`, when its bytes are valid UTF-8.
pub open spec fn c_string_text(buf: Seq<u8>) -> Option<Seq<char>> {
    if valid_utf8(c_string_bytes(buf)) {
        Some(decode_utf8(c_string_bytes(buf)))
    } else {
        None
    }
}

/// `c_string_end` is the index of the first NUL, or the length when there is
/// none.
pub proof fn lemma_c_string_end(buf: Seq<u8>, i: int)
    requires
        0 <= i <= buf.len(),
        forall|j: int| 0 <= j < i ==> buf[j] != 0,
        i == buf.len() || buf[i] == 0,
    ensures
        c_string_end(buf) == i,
    decreases i,
{
    if i > 0 {
        let rest = buf.drop_first();
        assert forall|j: int| 0 <= j < i - 1 implies rest[j] != 0 by {
            assert(rest[j] == buf[j + 1]);
        }
        if i < buf.len() {
            assert(rest[i - 1] == buf[i]);
        }
        lemma_c_string_end(rest, i - 1);
    }
}

/// The end of a C string lies within the buffer, no byte before it is NUL,
/// and the byte at it (if any) is NUL.
pub proof fn lemma_c_string_end_bounds(buf: Seq<u8>)
    ensures
        c_string_end(buf) <= buf.len(),
        forall|j: int| 0 <= j < c_string_end(buf) ==> buf[j] != 0,
        c_string_end(buf) < buf.len() ==> buf[c_string_end(buf) as int] == 0,
    decreases buf.len(),
{
    if buf.len() > 0 && buf[0] != 0 {
        let rest = buf.drop_first();
        lemma_c_string_end_bounds(rest);
        assert forall|j: int| 0 <= j < c_string_end(buf) implies buf[j] != 0 by {
            if j > 0 {
                assert(buf[j] == rest[j - 1]);
            }
        }
    }
}

/// No byte of the UTF-8 encoding of a nonzero scalar value is NUL.
proof fn lemma_scalar_encoding_has_no_nul(c: u32)
    requires
        is_scalar(c),
        c != 0,
    ensures
        forall|j: int| 0 <= j < encode_scalar(c).len() ==> encode_scalar(c)[j] != 0,
{
    if has_width_1_encoding(c) {
        assert((c & 0x7F) as u8 != 0) by (bit_vector)
            requires
                0 < c <= 0x7F,
        ;
    } else {
        assert(forall|x: u8| (0xC0u8 | x) != 0u8) by (bit_vector);
        assert(forall|x: u8| (0xE0u8 | x) != 0u8) by (bit_vector);
        assert(forall|x: u8| (0xF0u8 | x) != 0u8) by (bit_vector);
        assert(forall|x: u8| (0x80u8 | x) != 0u8) by (bit_vector);
    }
}

/// No byte of the UTF-8 encoding of a text without NUL characters is NUL.
pub proof fn lemma_encoding_has_no_nul(chars: Seq<char>)
    requires
        forall|i: int| 0 <= i < chars.len() ==> chars[i] as u32 != 0,
    ensures
        forall|j: int| 0 <= j < encode_utf8(chars).len() ==> encode_utf8(chars)[j] != 0,
    decreases chars.len(),
{
    if chars.len() > 0 {
        let c = chars[0] as u32;
        char_is_scalar(chars[0]);
        lemma_scalar_encoding_has_no_nul(c);
        let rest = chars.drop_first();
        assert forall|i: int| 0 <= i < rest.len() implies rest[i] as u32 != 0 by {
            assert(rest[i] == chars[i + 1]);
        }
        lemma_encoding_has_no_nul(rest);
        let head = encode_scalar(c);
        let tail = encode_utf8(rest);
        assert(encode_utf8(chars) == head + tail);
        assert forall|j: int| 0 <= j < encode_utf8(chars).len() implies encode_utf8(chars)[j]
            != 0 by {
            if j < head.len() {
                assert(encode_utf8(chars)[j] == head[j]);
            } else {
                assert(encode_utf8(chars)[j] == tail[j - head.len()]);
            }
        }
    }
}

/// A name written into a buffer as UTF-8 and followed by a NUL byte reads
/// back as that name, whatever the buffer holds after the NUL.
pub proof fn lemma_c_string_read_back(name: Seq<char>, rest: Seq<u8>)
    requires
        forall|i: int| 0 <= i < name.len() ==> name[i] as u32 != 0,
    ensures
        c_string_text(encode_utf8(name) + seq![0u8] + rest) == Some(name),
{
    let bytes = encode_utf8(name);
    let buf = bytes + seq![0u8] + rest;
    lemma_encoding_has_no_nul(name);
    assert forall|j: int| 0 <= j < bytes.len() implies buf[j] != 0 by {
        assert(buf[j] == bytes[j]);
    }
    assert(buf[bytes.len() as int] == 0);
    lemma_c_string_end(buf, bytes.len() as int);
    assert(c_string_bytes(buf) =~= bytes);
    encode_utf8_valid_utf8(name);
    encode_utf8_decode_utf8(name);
}

/// Index of the first NUL byte of `buf`, or its length when it holds none.
pub fn c_string_len(buf: &[u8]) -> (n: usize)
    ensures
        n == c_string_end(buf@),
{
    let mut i: usize = 0;
    while i < buf.len() && buf[i] != 0
        invariant
            i <= buf@.len(),
            forall|j: int| 0 <= j < i ==> buf@[j] != 0,
        decreases buf@.len() - i,
    {
        i = i + 1;
    }
    proof {
        lemma_c_string_end(buf@, i as int);
    }
    i
}

/// The text `std::str::from_utf8` gives (through its error's `to_string`)
/// for `bytes` that are not UTF-8.  The error records where decoding fails,
/// which the bytes alone decide.
pub uninterp spec fn utf8_error_message(bytes: Seq<u8>) -> Seq<char>;

/// The text of the error for a name buffer whose C string is not UTF-8.
pub open spec fn c_string_error(buf: Seq<u8>) -> Seq<char> {
    utf8_error_message(c_string_bytes(buf))
}

/// `std::str::from_utf8`: succeeds exactly when the bytes are valid UTF-8,
/// and then views the same bytes as text; otherwise gives the text of the
/// `Utf8Error` it reports, which depends on the bytes alone.
#[verifier::external_body]
fn str_from_utf8(bytes: &[u8]) -> (r: Result<&str, String>)
    ensures
        r is Ok <==> valid_utf8(bytes@),
        r matches Ok(s) ==> s@ == decode_utf8(bytes@),
        r matches Err(m) ==> m@ == utf8_error_message(bytes@),
{
    core::str::from_utf8(bytes).map_err(|e| e.to_string())
}

/// Extract the NUL-terminated string held in a fixed-size name buffer.
///
/// CGNS writes names into fixed-size byte buffers with a trailing `\0`.
/// The text is the prefix before the first NUL (the whole buffer when it
/// holds none); `Invalid` with the decoder's message when that prefix is
/// not valid UTF-8.
pub fn read_c_string(buf: &[u8]) -> (r: CgnsResult<&str>)
    ensures
        c_string_text(buf@) matches Some(t) ==> (r matches Ok(s) && s@ == t),
        c_string_text(buf@) is None ==> (r matches Err(CgnsError::Invalid(m)) && m@
            == c_string_error(buf@)),
{
    let end = c_string_len(buf);
    proof {
        lemma_c_string_end_bounds(buf@);
    }
    let bytes = vstd::slice::slice_subrange(buf, 0, end);
    assert(bytes@ == c_string_bytes(buf@));
    match str_from_utf8(bytes) {
        Ok(s) => Ok(s),
        Err(m) => Err(CgnsError::Invalid(m)),
    }
}

/// Whether two strings hold the same text, compared byte by byte.
pub fn same_text(a: &str, b: &str) -> (r: bool)
    ensures
        r == (a@ == b@),
{
    let x = a.as_bytes();
    let y = b.as_bytes();
    proof {
        encode_utf8_valid_utf8(a@);
        encode_utf8_valid_utf8(b@);
        encode_utf8_decode_utf8(a@);
        encode_utf8_decode_utf8(b@);
        assert(x@ == encode_utf8(a@));
        assert(y@ == encode_utf8(b@));
        assert(a@ == b@ <==> x@ == y@);
    }
    if x.len() != y.len() {
        return false;
    }
    let mut i: usize = 0;
    while i < x.len()
        invariant
            x@.len() == y@.len(),
            a@ == b@ <==> x@ == y@,
            i <= x@.len(),
            forall|j: int| 0 <= j < i ==> x@[j] == y@[j],
        decreases x@.len() - i,
    {
        if x[i] != y[i] {
            return false;
        }
        i = i + 1;
    }
    proof {
        assert(x@ =~= y@);
    }
    true
}

/// `usize::to_string`: the decimal text of the value.
#[verifier::external_body]
fn usize_decimal(x: usize) -> (s: String)
    ensures
        s@ == crate::error::decimal_text(x as int),
{
    x.to_string()
}

/// The error a name holding a NUL byte is refused with: the C library takes
/// NUL-terminated names, so the name could not be passed whole.
pub open spec fn nul_error_text(position: nat) -> Seq<char> {
    "nul byte found in provided data at position: "@ + crate::error::decimal_text(position as int)
}

/// Check that `s` can be passed to the C library as a NUL-terminated
/// string: `Invalid` naming the position of the first NUL byte otherwise.
pub fn check_no_nul(s: &str) -> (r: CgnsResult<()>)
    ensures
        c_string_end(s.spec_bytes()) == s.spec_bytes().len() ==> r is Ok,
        c_string_end(s.spec_bytes()) < s.spec_bytes().len() ==> (r matches Err(
            CgnsError::Invalid(m),
        ) && m@ == nul_error_text(c_string_end(s.spec_bytes()))),
{
    let bytes = s.as_bytes();
    let end = c_string_len(bytes);
    if end == bytes.len() {
        Ok(())
    } else {
        let msg = String::from_str("nul byte found in provided data at position: ");
        let pos = usize_decimal(end);
        Err(CgnsError::Invalid(msg.concat(pos.as_str())))
    }
}

/// What reading the name of one node gave: a failure reported by the C
/// library, or the filled name buffer.
pub enum NameEntry {
    Failed(CgnsError),
    Named(Seq<u8>),
}

/// The decoded name of an entry, when it was read and is valid UTF-8.
pub open spec fn entry_text(e: NameEntry) -> Option<Seq<char>> {
    match e {
        NameEntry::Failed(_) => None,
        NameEntry::Named(b) => c_string_text(b),
    }
}

/// A search by name goes past this entry: it was read, decodes, and names
/// something else.
pub open spec fn passes_over(e: NameEntry, name: Seq<char>) -> bool {
    entry_text(e) matches Some(t) && t != name
}

/// Position, from `i` on and below `n`, of the first entry a search for
/// `name` stops at; `n` when it passes over all of them.
pub open spec fn stop_index(entries: Seq<NameEntry>, name: Seq<char>, i: int, n: int) -> int
    decreases n - i,
{
    if i >= n {
        n
    } else if !passes_over(entries[i], name) {
        i
    } else {
        stop_index(entries, name, i + 1, n)
    }
}

/// Position, from `i` on and below `n`, of the first entry whose name could
/// not be read or decoded; `n` when all of them could.
pub open spec fn failure_index(entries: Seq<NameEntry>, i: int, n: int) -> int
    decreases n - i,
{
    if i >= n {
        n
    } else if entry_text(entries[i]) is None {
        i
    } else {
        failure_index(entries, i + 1, n)
    }
}

/// The error reported for an entry whose name cannot be read: the
/// library's failure, or `Invalid` with the decoder's message when the name
/// is not UTF-8.
pub open spec fn entry_error(e: NameEntry, err: CgnsError) -> bool {
    match e {
        NameEntry::Failed(x) => err == x,
        NameEntry::Named(b) => err matches CgnsError::Invalid(m) && m@ == c_string_error(b),
    }
}

/// Outcome of searching the first `n` entries for `name`: the first entry
/// that matches gives `found` at its position, an unreadable entry met
/// before any match gives its error, and `NotFound` with text `missing`
/// when no entry matches.
pub open spec fn search_outcome<T>(
    entries: Seq<NameEntry>,
    name: Seq<char>,
    n: int,
    r: CgnsResult<T>,
    found: spec_fn(T, int) -> bool,
    missing: Seq<char>,
) -> bool {
    let k = stop_index(entries, name, 0, n);
    if k >= n {
        r matches Err(CgnsError::NotFound(m)) && m@ == missing
    } else if entry_text(entries[k]) is None {
        r matches Err(err) && entry_error(entries[k], err)
    } else {
        r matches Ok(v) && found(v, k)
    }
}

/// Outcome of reading the names of the first `n` entries: all their texts
/// (`item` relating each produced value to its position and name), or the
/// error of the first entry whose name cannot be read.
pub open spec fn listing_outcome<T>(
    entries: Seq<NameEntry>,
    n: int,
    r: CgnsResult<Vec<T>>,
    item: spec_fn(T, int, Seq<char>) -> bool,
) -> bool {
    let k = failure_index(entries, 0, n);
    if k >= n {
        r matches Ok(v) && v@.len() == (if n < 0 { 0 } else { n }) && forall|i: int|
            0 <= i < v@.len() ==> item(#[trigger] v@[i], i, entry_text(entries[i])->Some_0)
    } else {
        r matches Err(err) && entry_error(entries[k], err)
    }
}

/// `stop_index` is the first position at or after `i` the search does not
/// pass over.
pub proof fn lemma_stop_index(entries: Seq<NameEntry>, name: Seq<char>, i: int, n: int, k: int)
    requires
        i <= k <= n,
        forall|j: int| i <= j < k ==> passes_over(entries[j], name),
        k == n || !passes_over(entries[k], name),
    ensures
        stop_index(entries, name, i, n) == k,
    decreases k - i,
{
    if i < k {
        lemma_stop_index(entries, name, i + 1, n, k);
    }
}

/// `failure_index` is the first position at or after `i` whose name is not
/// readable.
pub proof fn lemma_failure_index(entries: Seq<NameEntry>, i: int, n: int, k: int)
    requires
        i <= k <= n,
        forall|j: int| i <= j < k ==> entry_text(entries[j]) is Some,
        k >= n || entry_text(entries[k]) is None,
    ensures
        failure_index(entries, i, n) == k,
    decreases k - i,
{
    if i < k {
        lemma_failure_index(entries, i + 1, n, k);
    }
}

/// Properties of `stop_index`: it lies in `[i, n]`, the search passes over
/// every entry before it, and does not pass over the entry at it.
pub proof fn lemma_stop_index_props(entries: Seq<NameEntry>, name: Seq<char>, i: int, n: int)
    requires
        i <= n,
    ensures
        i <= stop_index(entries, name, i, n) <= n,
        forall|j: int| i <= j < stop_index(entries, name, i, n) ==> passes_over(entries[j], name),
        stop_index(entries, name, i, n) < n ==> !passes_over(
            entries[stop_index(entries, name, i, n)],
            name,
        ),
    decreases n - i,
{
    if i < n && passes_over(entries[i], name) {
        lemma_stop_index_props(entries, name, i + 1, n);
    }
}

/// Properties of `failure_index`: it lies in `[i, n]`, every entry before
/// it is readable, and the entry at it is not.
pub proof fn lemma_failure_index_props(entries: Seq<NameEntry>, i: int, n: int)
    requires
        i <= n,
    ensures
        i <= failure_index(entries, i, n) <= n,
        forall|j: int| i <= j < failure_index(entries, i, n) ==> entry_text(entries[j]) is Some,
        failure_index(entries, i, n) < n ==> entry_text(entries[failure_index(entries, i, n)]) is None,
    decreases n - i,
{
    if i < n && entry_text(entries[i]) is Some {
        lemma_failure_index_props(entries, i + 1, n);
    }
}

/// When every one of the first `n` entries is readable, a search for `name`
/// stops at the first entry named `name`, or passes over all of them when
/// none is.
pub proof fn lemma_search_over_readable(entries: Seq<NameEntry>, name: Seq<char>, n: int)
    requires
        0 <= n,
        failure_index(entries, 0, n) == n,
    ensures
        ({
            let k = stop_index(entries, name, 0, n);
            &&& 0 <= k <= n
            &&& k < n ==> entry_text(entries[k]) == Some(name)
            &&& forall|j: int| 0 <= j < k ==> entry_text(entries[j]) != Some(name)
            &&& forall|j: int| 0 <= j < n ==> entry_text(entries[j]) is Some
        }),
{
    lemma_stop_index_props(entries, name, 0, n);
    lemma_failure_index_props(entries, 0, n);
}

/// The entries a sequence of reported name reads stands for: a failed read
/// is a failure with status `-1`, a successful one the filled buffer.
pub open spec fn reported_entries(reads: Seq<Result<Vec<u8>, String>>) -> Seq<NameEntry> {
    reads.map_values(
        |r: Result<Vec<u8>, String>|
            match r {
                Ok(b) => NameEntry::Named(b@),
                Err(_) => NameEntry::Failed(CgnsError::CgnsCode(-1i32)),
            },
    )
}

/// The entries a sequence of (status, name buffer) reads stands for: a
/// status other than `CG_OK` is a failure with that status.
pub open spec fn status_entries(reads: Seq<(i32, Vec<u8>)>) -> Seq<NameEntry> {
    reads.map_values(
        |r: (i32, Vec<u8>)|
            if r.0 == crate::error::CG_OK {
                NameEntry::Named(r.1@)
            } else {
                NameEntry::Failed(CgnsError::CgnsCode(r.0))
            },
    )
}

/// The `i`-th reported read as an entry.
pub fn reported_entry(reads: &Vec<Result<Vec<u8>, String>>, i: usize) -> (e: Result<&[u8], CgnsError>)
    requires
        i < reads@.len(),
    ensures
        (match e {
            Ok(b) => NameEntry::Named(b@),
            Err(err) => NameEntry::Failed(err),
        }) == reported_entries(reads@)[i as int],
{
    match &reads[i] {
        Ok(b) => Ok(b.as_slice()),
        Err(_) => Err(CgnsError::CgnsCode(-1)),
    }
}

/// The `i`-th (status, name buffer) read as an entry.
pub fn status_entry(reads: &Vec<(i32, Vec<u8>)>, i: usize) -> (e: Result<&[u8], CgnsError>)
    requires
        i < reads@.len(),
    ensures
        (match e {
            Ok(b) => NameEntry::Named(b@),
            Err(err) => NameEntry::Failed(err),
        }) == status_entries(reads@)[i as int],
{
    let r = &reads[i];
    if r.0 == crate::error::CG_OK {
        Ok(r.1.as_slice())
    } else {
        Err(CgnsError::CgnsCode(r.0))
    }
}

/// How one entry bears on a search by name.
pub enum EntryMatch {
    /// The entry names what is searched for.
    Matches,
    /// The entry names something else.
    Differs,
    /// The entry's name could not be read or decoded.
    Unreadable(CgnsError),
}

/// Decide how an entry, given as the name buffer or the failure to read it,
/// bears on a search for `name`.
pub fn match_entry(entry: Result<&[u8], CgnsError>, name: &str) -> (m: EntryMatch)
    ensures
        ({
            let e = match entry {
                Ok(b) => NameEntry::Named(b@),
                Err(err) => NameEntry::Failed(err),
            };
            &&& m is Matches <==> entry_text(e) == Some(name@)
            &&& m is Differs <==> passes_over(e, name@)
            &&& m matches EntryMatch::Unreadable(err2) ==> entry_text(e) is None && entry_error(
                e,
                err2,
            )
        }),
{
    match entry {
        Err(err) => EntryMatch::Unreadable(err),
        Ok(buf) => match read_c_string(buf) {
            Ok(text) => if same_text(text, name) {
                EntryMatch::Matches
            } else {
                EntryMatch::Differs
            },
            Err(err) => EntryMatch::Unreadable(err),
        },
    }
}

/// Read the name held in an entry, given as the name buffer or the failure
/// to read it.
pub fn entry_name(entry: Result<&[u8], CgnsError>) -> (r: CgnsResult<String>)
    ensures
        ({
            let e = match entry {
                Ok(b) => NameEntry::Named(b@),
                Err(err) => NameEntry::Failed(err),
            };
            &&& entry_text(e) matches Some(t) ==> (r matches Ok(s) && s@ == t)
            &&& entry_text(e) is None ==> (r matches Err(err) && entry_error(e, err))
        }),
{
    match entry {
        Err(err) => Err(err),
        Ok(buf) => match read_c_string(buf) {
            Ok(text) => Ok(String::from_str(text)),
            Err(err) => Err(err),
        },
    }
}

/// `"<kind> '<name>' not found"`: the text of the error a search by name
/// reports when nothing has that name.
pub open spec fn not_found_text(kind: Seq<char>, name: Seq<char>) -> Seq<char> {
    kind + " '"@ + name + "' not found"@
}

/// Build the text of the error a search by name reports when nothing has
/// that name.
pub fn not_found_message(kind: &str, name: &str) -> (m: String)
    ensures
        m@ == not_found_text(kind@, name@),
{
    let mut m = String::from_str(kind);
    m.append(" '");
    m.append(name);
    m.append("' not found");
    m
}

} // verus!
