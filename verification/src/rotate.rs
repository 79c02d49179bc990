//! The output rotator: which output file each record goes to, so that no
//! file grows over the byte cap, and what the files are called.

use vstd::prelude::*;
use vstd::string::StringExecFns;

verus! {

/// The byte cap of an output file where the caller names none.
pub const DEFAULT_CAP_BYTES: u64 = 1_000_000_000;

/// The mathematical state of the rotator.
pub ghost struct RotatorView {
    /// The most bytes that a file may hold, unless one record alone is longer.
    pub cap: nat,
    /// The number of the file that is being written; the first is 0.
    pub file_index: nat,
    /// The bytes written to that file so far.
    pub current_size: nat,
    /// Whether a record has been written to that file.
    pub has_content: bool,
}

/// The bytes that a record of `record_len` bytes takes in a file: its own and
/// the newline's.
pub open spec fn size_in_file(record_len: nat) -> nat {
    record_len + 1
}

/// The rotator before the first record: file 0, nothing written.
pub open spec fn fresh(cap: nat) -> RotatorView {
    RotatorView { cap, file_index: 0, current_size: 0, has_content: false }
}

/// A record of `size` bytes does not fit in the current file, and the file is
/// not empty: the record starts a new file. An empty file takes any record.
pub open spec fn must_rotate(s: RotatorView, size: nat) -> bool {
    s.has_content && s.current_size + size > s.cap
}

/// The rotator after a record of `size` bytes has been placed.
pub open spec fn placed(s: RotatorView, size: nat) -> RotatorView {
    if must_rotate(s, size) {
        RotatorView { file_index: s.file_index + 1, current_size: size, has_content: true, ..s }
    } else {
        RotatorView { current_size: s.current_size + size, has_content: true, ..s }
    }
}

/// The rotator after records of the given sizes, placed from the first.
pub open spec fn after(cap: nat, sizes: Seq<nat>) -> RotatorView
    decreases sizes.len(),
{
    if sizes.len() == 0 {
        fresh(cap)
    } else {
        placed(after(cap, sizes.drop_last()), sizes.last())
    }
}

/// The number of the file that record `i` goes to.
pub open spec fn file_of(cap: nat, sizes: Seq<nat>, i: int) -> nat {
    after(cap, sizes.take(i + 1)).file_index
}

/// The number of files that the records make. There is always a first file,
/// also where there is no record.
pub open spec fn file_count(cap: nat, sizes: Seq<nat>) -> nat {
    after(cap, sizes).file_index + 1
}

/// The bytes that file `file` holds once all records are placed.
pub open spec fn file_bytes(cap: nat, sizes: Seq<nat>, file: nat) -> nat
    decreases sizes.len(),
{
    if sizes.len() == 0 {
        0
    } else if after(cap, sizes).file_index == file {
        file_bytes(cap, sizes.drop_last(), file) + sizes.last()
    } else {
        file_bytes(cap, sizes.drop_last(), file)
    }
}

/// The number of records that file `file` holds once all records are placed.
pub open spec fn file_records(cap: nat, sizes: Seq<nat>, file: nat) -> nat
    decreases sizes.len(),
{
    if sizes.len() == 0 {
        0
    } else if after(cap, sizes).file_index == file {
        file_records(cap, sizes.drop_last(), file) + 1
    } else {
        file_records(cap, sizes.drop_last(), file)
    }
}

/// What holds of the files at every moment of the placing: the file being
/// written holds what the rotator has counted, the files before it are closed
/// within the cap or hold one record, and no later file has been touched.
spec fn files_in_order(cap: nat, sizes: Seq<nat>) -> bool {
    let s = after(cap, sizes);
    &&& s.cap == cap
    &&& s.has_content <==> sizes.len() > 0
    &&& !s.has_content ==> s.file_index == 0 && s.current_size == 0
    &&& file_bytes(cap, sizes, s.file_index) == s.current_size
    &&& s.has_content <==> file_records(cap, sizes, s.file_index) >= 1
    &&& s.current_size <= cap || file_records(cap, sizes, s.file_index) <= 1
    &&& forall|file: nat|
        file < s.file_index ==> {
            &&& #[trigger] file_records(cap, sizes, file) >= 1
            &&& file_bytes(cap, sizes, file) <= cap || file_records(cap, sizes, file) == 1
        }
    &&& forall|file: nat|
        file > s.file_index ==> {
            &&& #[trigger] file_records(cap, sizes, file) == 0
            &&& file_bytes(cap, sizes, file) == 0
        }
}

/// The files are in order after any sequence of records, by induction on the
/// number of records placed.
proof fn lemma_files_in_order(cap: nat, sizes: Seq<nat>)
    ensures
        files_in_order(cap, sizes),
    decreases sizes.len(),
{
    if sizes.len() > 0 {
        let earlier = sizes.drop_last();
        lemma_files_in_order(cap, earlier);
        let before = after(cap, earlier);
        let now = after(cap, sizes);
        assert(now == placed(before, sizes.last()));
        assert forall|file: nat| file < now.file_index implies {
            &&& #[trigger] file_records(cap, sizes, file) >= 1
            &&& file_bytes(cap, sizes, file) <= cap || file_records(cap, sizes, file) == 1
        } by {
            assert(file_records(cap, sizes, file) == file_records(cap, earlier, file));
        }
        assert forall|file: nat| file > now.file_index implies {
            &&& #[trigger] file_records(cap, sizes, file) == 0
            &&& file_bytes(cap, sizes, file) == 0
        } by {
            assert(file_records(cap, sizes, file) == file_records(cap, earlier, file));
        }
        if must_rotate(before, sizes.last()) {
            assert(file_records(cap, earlier, now.file_index) == 0);
        }
    }
}

/// Every output file stays within the cap, but for a file that holds a single
/// record which alone is longer than the cap; and no file is empty, but for
/// the first where there was no record at all.
pub proof fn lemma_files_respect_cap(cap: nat, sizes: Seq<nat>)
    ensures
        forall|file: nat|
            file < file_count(cap, sizes) ==> {
                &&& #[trigger] file_bytes(cap, sizes, file) <= cap || file_records(
                    cap,
                    sizes,
                    file,
                ) == 1
                &&& sizes.len() > 0 ==> file_records(cap, sizes, file) >= 1
            },
        sizes.len() == 0 ==> file_count(cap, sizes) == 1,
{
    lemma_files_in_order(cap, sizes);
}

/// The file numbers never go back, and a record goes to the file of the record
/// before it or to the next one.
pub proof fn lemma_files_are_consecutive(cap: nat, sizes: Seq<nat>, i: int)
    requires
        0 <= i < sizes.len(),
    ensures
        i == 0 ==> file_of(cap, sizes, i) == 0,
        i > 0 ==> file_of(cap, sizes, i) == file_of(cap, sizes, i - 1) || file_of(cap, sizes, i)
            == file_of(cap, sizes, i - 1) + 1,
{
    let upto = sizes.take(i + 1);
    assert(upto.drop_last() == sizes.take(i));
    lemma_files_in_order(cap, sizes.take(i));
}

/// The rotator. It counts the bytes of the file being written and says, for
/// each record, whether the record starts a new file.
#[derive(Debug)]
pub struct Rotator {
    cap: u64,
    file_index: u64,
    current_size: u128,
    has_content: bool,
}

impl View for Rotator {
    type V = RotatorView;

    closed spec fn view(&self) -> RotatorView {
        RotatorView {
            cap: self.cap as nat,
            file_index: self.file_index as nat,
            current_size: self.current_size as nat,
            has_content: self.has_content,
        }
    }
}

impl Rotator {
    /// The file number leaves room for the file count, and the byte count is
    /// that of a file within the cap or of a single record.
    #[verifier::type_invariant]
    spec fn within_limits(self) -> bool {
        &&& self.file_index < u64::MAX
        &&& self.current_size <= self.cap || self.current_size <= usize::MAX + 1
        &&& !self.has_content ==> self.current_size == 0
    }

    /// A rotator for files of at most `cap_bytes` bytes, at file 0 with
    /// nothing written.
    pub fn new(cap_bytes: u64) -> (rotator: Rotator)
        ensures
            rotator@ == fresh(cap_bytes as nat),
    {
        Rotator { cap: cap_bytes, file_index: 0, current_size: 0, has_content: false }
    }

    /// The byte cap.
    pub fn cap(&self) -> (cap: u64)
        ensures
            cap == self@.cap,
    {
        self.cap
    }

    /// The number of the file being written.
    pub fn file_index(&self) -> (index: u64)
        ensures
            index == self@.file_index,
    {
        self.file_index
    }

    /// The number of files so far, the one being written included.
    pub fn file_count(&self) -> (count: u64)
        ensures
            count == self@.file_index + 1,
    {
        proof {
            use_type_invariant(self);
        }
        self.file_index + 1
    }

    /// Whether a record has been written to the file being written.
    pub fn has_content(&self) -> (has: bool)
        ensures
            has == self@.has_content,
    {
        self.has_content
    }

    /// Places a record of `record_len` bytes, to which the newline is added.
    /// Returns whether the record starts a new file; the file it goes to is
    /// then `file_index()`.
    pub fn place(&mut self, record_len: usize) -> (rotated: bool)
        requires
            old(self)@.file_index + 1 < u64::MAX,
        ensures
            rotated == must_rotate(old(self)@, size_in_file(record_len as nat)),
            final(self)@ == placed(old(self)@, size_in_file(record_len as nat)),
    {
        proof {
            use_type_invariant(&*self);
        }
        let size: u128 = record_len as u128 + 1;
        let rotated = self.has_content && self.current_size + size > self.cap as u128;
        let (file_index, current_size) = if rotated {
            (self.file_index + 1, size)
        } else {
            (self.file_index, self.current_size + size)
        };
        *self = Rotator { cap: self.cap, file_index, current_size, has_content: true };
        rotated
    }
}

/// The sizes in a file of records of the given lengths.
pub open spec fn sizes_in_file(record_lens: Seq<usize>) -> Seq<nat> {
    record_lens.map_values(|len: usize| size_in_file(len as nat))
}

/// The number of the output file of each record, for records of the given
/// byte lengths that are placed in this order under the cap `cap_bytes`.
pub fn assign_files(cap_bytes: u64, record_lens: &Vec<usize>) -> (files: Vec<u64>)
    ensures
        files.len() == record_lens.len(),
        forall|i: int|
            0 <= i < files.len() ==> #[trigger] files[i] == file_of(
                cap_bytes as nat,
                sizes_in_file(record_lens@),
                i,
            ),
{
    let ghost sizes = sizes_in_file(record_lens@);
    let mut rotator = Rotator::new(cap_bytes);
    let mut files: Vec<u64> = Vec::new();
    let mut i: usize = 0;
    while i < record_lens.len()
        invariant
            i <= record_lens.len(),
            sizes == sizes_in_file(record_lens@),
            files.len() == i,
            rotator@ == after(cap_bytes as nat, sizes.take(i as int)),
            rotator@.has_content == (i > 0),
            rotator@.file_index == 0 || rotator@.file_index < i,
            forall|k: int|
                0 <= k < i ==> #[trigger] files[k] == file_of(cap_bytes as nat, sizes, k),
        decreases record_lens.len() - i,
    {
        proof {
            let upto = sizes.take(i as int + 1);
            assert(upto.drop_last() == sizes.take(i as int));
        }
        rotator.place(record_lens[i]);
        files.push(rotator.file_index());
        i += 1;
    }
    files
}

/// The character of the decimal digit `d`.
pub open spec fn digit(d: nat) -> char {
    if d == 0 {
        '0'
    } else if d == 1 {
        '1'
    } else if d == 2 {
        '2'
    } else if d == 3 {
        '3'
    } else if d == 4 {
        '4'
    } else if d == 5 {
        '5'
    } else if d == 6 {
        '6'
    } else if d == 7 {
        '7'
    } else if d == 8 {
        '8'
    } else {
        '9'
    }
}

/// The decimal numeral of `n`, without leading zeros.
pub open spec fn decimal(n: nat) -> Seq<char>
    decreases n,
{
    if n < 10 {
        seq![digit(n)]
    } else {
        decimal(n / 10).push(digit(n % 10))
    }
}

/// The name of output file `index`: `output.txt` for the first, then
/// `output1.txt`, `output2.txt` and so on.
pub open spec fn file_name(index: nat) -> Seq<char> {
    if index == 0 {
        "output.txt"@
    } else {
        "output"@ + decimal(index) + ".txt"@
    }
}

fn digit_text(d: u64) -> (text: &'static str)
    requires
        d < 10,
    ensures
        text@ == seq![digit(d as nat)],
{
    proof {
        reveal_strlit("0");
        reveal_strlit("1");
        reveal_strlit("2");
        reveal_strlit("3");
        reveal_strlit("4");
        reveal_strlit("5");
        reveal_strlit("6");
        reveal_strlit("7");
        reveal_strlit("8");
        reveal_strlit("9");
    }
    let text = if d == 0 {
        "0"
    } else if d == 1 {
        "1"
    } else if d == 2 {
        "2"
    } else if d == 3 {
        "3"
    } else if d == 4 {
        "4"
    } else if d == 5 {
        "5"
    } else if d == 6 {
        "6"
    } else if d == 7 {
        "7"
    } else if d == 8 {
        "8"
    } else {
        "9"
    };
    text
}

fn push_decimal(out: &mut String, n: u64)
    ensures
        final(out)@ == old(out)@ + decimal(n as nat),
    decreases n,
{
    if n >= 10 {
        push_decimal(out, n / 10);
    }
    out.append(digit_text(n % 10));
}

/// The name of output file `index`.
pub fn output_file_name(index: u64) -> (name: String)
    ensures
        name@ == file_name(index as nat),
{
    if index == 0 {
        "output.txt".to_owned()
    } else {
        let mut name = "output".to_owned();
        push_decimal(&mut name, index);
        name.append(".txt");
        name
    }
}

} // verus!
