//! What the persistence worker writes, computed and specified exactly: the
//! window's destination directory name, one image file name per frame, and
//! the metadata table whose rows list each frame's counters in acquisition
//! order. The disk itself (directories, TIFF encoding, file writes) is the
//! caller's concern; everything here is a pure function of the window.

use vstd::prelude::*;
use vstd::string::*;

use crate::frame::{ImageData, KalmanEstimateRow, Packet, Window};

verus! {

/// The character for one decimal digit.
pub open spec fn digit_char(d: nat) -> char {
    if d == 0 {
        '0'
    } else if d == 1 {
        '1'
    } else if d == 2 {
        '2'
    } else if d == 3 {
        '3'
    } else if d == 4 {
        '4'
    } else if d == 5 {
        '5'
    } else if d == 6 {
        '6'
    } else if d == 7 {
        '7'
    } else if d == 8 {
        '8'
    } else {
        '9'
    }
}

/// The numeric value of one decimal digit character.
pub open spec fn char_digit(c: char) -> nat {
    if c == '0' {
        0
    } else if c == '1' {
        1
    } else if c == '2' {
        2
    } else if c == '3' {
        3
    } else if c == '4' {
        4
    } else if c == '5' {
        5
    } else if c == '6' {
        6
    } else if c == '7' {
        7
    } else if c == '8' {
        8
    } else {
        9
    }
}

/// `n` written in decimal, most significant digit first, no leading zeros
/// (a single `'0'` for zero).
pub open spec fn dec_digits(n: nat) -> Seq<char>
    decreases n,
{
    if n < 10 {
        seq![digit_char(n)]
    } else {
        dec_digits(n / 10).push(digit_char(n % 10))
    }
}

/// Reading a digit string back as a number, most significant digit first.
pub open spec fn dec_value(s: Seq<char>) -> nat
    decreases s.len(),
{
    if s.len() == 0 {
        0
    } else {
        dec_value(s.drop_last()) * 10 + char_digit(s.last())
    }
}

/// `c` is one of the ten decimal digit characters.
pub open spec fn is_digit_char(c: char) -> bool {
    c == '0' || c == '1' || c == '2' || c == '3' || c == '4' || c == '5' || c == '6' || c == '7'
        || c == '8' || c == '9'
}

/// Every character of a decimal numeral is a digit.
pub proof fn lemma_dec_digits_are_digits(n: nat)
    ensures
        forall|i: int| 0 <= i < dec_digits(n).len() ==> is_digit_char(#[trigger] dec_digits(n)[i]),
    decreases n,
{
    if n < 10 {
        assert(dec_digits(n).len() == 1);
        assert(dec_digits(n)[0] == digit_char(n));
        assert(is_digit_char(digit_char(n)));
    } else {
        lemma_dec_digits_are_digits(n / 10);
        let prefix = dec_digits(n / 10);
        assert(dec_digits(n) == prefix.push(digit_char(n % 10)));
        assert forall|i: int| 0 <= i < dec_digits(n).len() implies is_digit_char(
            #[trigger] dec_digits(n)[i],
        ) by {
            if i < prefix.len() {
                assert(dec_digits(n)[i] == prefix[i]);
            } else {
                assert(dec_digits(n)[i] == digit_char(n % 10));
                assert(is_digit_char(digit_char(n % 10)));
            }
        }
    }
}

/// Writing a number in decimal and reading it back yields the number.
pub proof fn lemma_dec_roundtrip(n: nat)
    ensures
        dec_value(dec_digits(n)) == n,
    decreases n,
{
    if n < 10 {
        let s = dec_digits(n);
        assert(s.len() == 1 && s.last() == digit_char(n));
        assert(s.drop_last() =~= Seq::<char>::empty());
        assert(dec_value(s.drop_last()) == 0);
        assert(char_digit(digit_char(n)) == n);
    } else {
        lemma_dec_roundtrip(n / 10);
        let s = dec_digits(n);
        assert(s == dec_digits(n / 10).push(digit_char(n % 10)));
        assert(s.drop_last() =~= dec_digits(n / 10));
        assert(s.last() == digit_char(n % 10));
        assert(char_digit(digit_char(n % 10)) == n % 10);
        assert(dec_value(s) == (n / 10) * 10 + n % 10);
        assert((n / 10) * 10 + n % 10 == n) by {
            vstd::arithmetic::div_mod::lemma_fundamental_div_mod(n as int, 10);
        }
    }
}

/// The string for one digit.
fn digit_str(d: u64) -> (s: &'static str)
    requires
        d < 10,
    ensures
        s@ == seq![digit_char(d as nat)],
{
    match d {
        0 => {
            proof {
                reveal_strlit("0");
                assert("0"@ =~= seq![digit_char(0)]);
            }
            "0"
        },
        1 => {
            proof {
                reveal_strlit("1");
                assert("1"@ =~= seq![digit_char(1)]);
            }
            "1"
        },
        2 => {
            proof {
                reveal_strlit("2");
                assert("2"@ =~= seq![digit_char(2)]);
            }
            "2"
        },
        3 => {
            proof {
                reveal_strlit("3");
                assert("3"@ =~= seq![digit_char(3)]);
            }
            "3"
        },
        4 => {
            proof {
                reveal_strlit("4");
                assert("4"@ =~= seq![digit_char(4)]);
            }
            "4"
        },
        5 => {
            proof {
                reveal_strlit("5");
                assert("5"@ =~= seq![digit_char(5)]);
            }
            "5"
        },
        6 => {
            proof {
                reveal_strlit("6");
                assert("6"@ =~= seq![digit_char(6)]);
            }
            "6"
        },
        7 => {
            proof {
                reveal_strlit("7");
                assert("7"@ =~= seq![digit_char(7)]);
            }
            "7"
        },
        8 => {
            proof {
                reveal_strlit("8");
                assert("8"@ =~= seq![digit_char(8)]);
            }
            "8"
        },
        _ => {
            proof {
                reveal_strlit("9");
                assert("9"@ =~= seq![digit_char(9)]);
            }
            "9"
        },
    }
}

/// `n` written in decimal.
pub fn u64_to_dec(n: u64) -> (s: String)
    ensures
        s@ == dec_digits(n as nat),
    decreases n,
{
    if n < 10 {
        String::from_str(digit_str(n))
    } else {
        let mut s = u64_to_dec(n / 10);
        s.append(digit_str(n % 10));
        proof {
            assert(s@ =~= dec_digits(n as nat));
        }
        s
    }
}

/// The metadata table's header row.
pub fn metadata_header() -> (s: String)
    ensures
        s@ == "nframe,acq_nframe,timestamp_raw,exposure_time"@,
{
    String::from_str("nframe,acq_nframe,timestamp_raw,exposure_time")
}

/// One metadata row: the frame's counters in decimal, comma-separated, in
/// the header's order.
pub open spec fn csv_row_of(f: ImageData) -> Seq<char> {
    dec_digits(f.nframe as nat) + seq![','] + dec_digits(f.acq_nframe as nat) + seq![',']
        + dec_digits(f.timestamp_raw as nat) + seq![','] + dec_digits(f.exposure_time as nat)
}

/// The metadata row for one frame.
pub fn csv_row(f: &ImageData) -> (s: String)
    ensures
        s@ == csv_row_of(*f),
{
    let mut s = u64_to_dec(f.nframe as u64);
    s.append(",");
    let acq = u64_to_dec(f.acq_nframe as u64);
    s.append(acq.as_str());
    s.append(",");
    let ts = u64_to_dec(f.timestamp_raw);
    s.append(ts.as_str());
    s.append(",");
    let exp = u64_to_dec(f.exposure_time as u64);
    s.append(exp.as_str());
    proof {
        reveal_strlit(",");
        assert(","@ =~= seq![',']);
        assert(s@ =~= csv_row_of(*f));
    }
    s
}

/// The destination directory for a window, named after its trigger.
pub open spec fn dir_name_of(tag: KalmanEstimateRow) -> Seq<char> {
    "obj_id_"@ + dec_digits(tag.obj_id as nat) + "_frame_"@ + dec_digits(tag.frame as nat)
}

/// The directory name for a window with trigger tag `tag`.
pub fn window_dir_name(tag: &KalmanEstimateRow) -> (s: String)
    ensures
        s@ == dir_name_of(*tag),
{
    let mut s = String::from_str("obj_id_");
    let obj = u64_to_dec(tag.obj_id as u64);
    s.append(obj.as_str());
    s.append("_frame_");
    let frame = u64_to_dec(tag.frame);
    s.append(frame.as_str());
    proof {
        assert(s@ =~= dir_name_of(*tag));
    }
    s
}

/// The image file for a frame, named by the frame's own sequence number.
pub open spec fn image_file_name_of(f: ImageData) -> Seq<char> {
    dec_digits(f.acq_nframe as nat) + ".tiff"@
}

/// The file name under which a frame's pixels are written.
pub fn image_file_name(f: &ImageData) -> (s: String)
    ensures
        s@ == image_file_name_of(*f),
{
    let mut s = u64_to_dec(f.acq_nframe as u64);
    s.append(".tiff");
    proof {
        assert(s@ =~= image_file_name_of(*f));
    }
    s
}

/// The metadata table for a window: the header, then one row per frame, in
/// the window's (that is, acquisition) order.
pub fn metadata_rows(w: &Window) -> (rows: Vec<String>)
    ensures
        rows@.len() == w.frames@.len() + 1,
        rows@[0]@ == "nframe,acq_nframe,timestamp_raw,exposure_time"@,
        forall|i: int|
            0 <= i < w.frames@.len() ==> (#[trigger] rows@[i + 1])@ == csv_row_of(w.frames@[i]),
{
    let mut rows: Vec<String> = Vec::new();
    rows.push(metadata_header());
    let mut i: usize = 0;
    while i < w.frames.len()
        invariant
            0 <= i <= w.frames@.len(),
            rows@.len() == i + 1,
            rows@[0]@ == "nframe,acq_nframe,timestamp_raw,exposure_time"@,
            forall|j: int|
                0 <= j < i ==> (#[trigger] rows@[j + 1])@ == csv_row_of(w.frames@[j]),
        decreases w.frames@.len() - i,
    {
        rows.push(csv_row(&w.frames[i]));
        i = i + 1;
    }
    rows
}

/// Everything the worker must write for one window: the directory, the image
/// file names (index-aligned with the window's frames), and the metadata.
pub struct PersistPlan {
    pub directory: String,
    pub image_files: Vec<String>,
    pub metadata: Vec<String>,
}

/// The worker's reaction to one queue item.
pub enum WorkerAction {
    Persist(PersistPlan),
    Stop,
}

/// The persistence worker's decision for one packet from the queue: a kill
/// sentinel stops the worker; a window yields the exact plan of what to
/// write for it.
pub fn plan_packet(p: &Packet) -> (a: WorkerAction)
    ensures
        (p is Kill) <==> (a is Stop),
        p matches Packet::Images(w) ==> a matches WorkerAction::Persist(plan) && {
            &&& plan.directory@ == dir_name_of(w.tag)
            &&& plan.image_files@.len() == w.frames@.len()
            &&& forall|i: int|
                0 <= i < w.frames@.len() ==> (#[trigger] plan.image_files@[i])@
                    == image_file_name_of(w.frames@[i])
            &&& plan.metadata@.len() == w.frames@.len() + 1
            &&& plan.metadata@[0]@ == "nframe,acq_nframe,timestamp_raw,exposure_time"@
            &&& forall|i: int|
                0 <= i < w.frames@.len() ==> (#[trigger] plan.metadata@[i + 1])@
                    == csv_row_of(w.frames@[i])
        },
{
    match p {
        Packet::Kill => WorkerAction::Stop,
        Packet::Images(w) => {
            let directory = window_dir_name(&w.tag);
            let mut image_files: Vec<String> = Vec::new();
            let mut i: usize = 0;
            while i < w.frames.len()
                invariant
                    0 <= i <= w.frames@.len(),
                    image_files@.len() == i,
                    forall|j: int|
                        0 <= j < i ==> (#[trigger] image_files@[j])@ == image_file_name_of(
                            w.frames@[j],
                        ),
                decreases w.frames@.len() - i,
            {
                image_files.push(image_file_name(&w.frames[i]));
                i = i + 1;
            }
            let metadata = metadata_rows(w);
            WorkerAction::Persist(PersistPlan { directory, image_files, metadata })
        },
    }
}

/// Law: the metadata row written for a frame begins with the frame's
/// sequence number: the characters before the row's first comma, read back
/// as a decimal number, are exactly `nframe`. Together with the row count
/// and row order stated by [`metadata_rows`], the persisted table determines
/// the window: row `i`'s sequence number is frame `i`'s.
pub proof fn lemma_metadata_row_gives_sequence_number(f: ImageData)
    ensures
        ({
            let row = csv_row_of(f);
            let k = dec_digits(f.nframe as nat).len() as int;
            &&& 0 < k < row.len()
            &&& row[k] == ','
            &&& forall|j: int| 0 <= j < k ==> row[j] != ','
            &&& dec_value(row.take(k)) == f.nframe as nat
        }),
{
    let row = csv_row_of(f);
    let digits = dec_digits(f.nframe as nat);
    let k = digits.len() as int;
    lemma_dec_digits_are_digits(f.nframe as nat);
    lemma_dec_roundtrip(f.nframe as nat);
    assert(row.take(k) =~= digits);
    assert(row[k] == ',');
}

} // verus!
