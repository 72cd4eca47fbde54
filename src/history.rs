use vstd::prelude::*;

verus! {

/// Why a history operation failed.
#[derive(Clone, Debug)]
pub enum HistoryError {
    /// Opening, reading or writing the backing file failed.
    Io { message: String },
    /// Encoding or decoding the stored container failed.
    Serde { message: String },
}

/// What reading the backing file gave.
pub enum FileRead<T> {
    /// No file exists at the store's path.
    NotFound,
    /// The file was read and decoded into these records, oldest first.
    Decoded(Vec<T>),
    /// The file exists but could not be opened or read.
    IoFailed(String),
    /// The file was read but its content could not be decoded.
    DecodeFailed(String),
}

/// The records that a load yields from `read`, or `None` where it fails.
pub open spec fn spec_loaded<T>(read: FileRead<T>) -> Option<Seq<T>> {
    match read {
        FileRead::NotFound => Some(Seq::empty()),
        FileRead::Decoded(v) => Some(v@),
        _ => None,
    }
}

/// The sequence after `new_records` are saved onto `saved`.
pub open spec fn spec_saved<T>(saved: Seq<T>, new_records: Seq<T>) -> Seq<T> {
    saved + new_records
}

/// The sequence after `record` is put onto `saved`.
pub open spec fn spec_put<T>(saved: Seq<T>, record: T) -> Seq<T> {
    spec_saved(saved, seq![record])
}

/// The sequence after `saved` is shrunk to `min_capacity` records: the
/// newest `min_capacity` of them, or all where there are no more.
pub open spec fn spec_shrunk<T>(saved: Seq<T>, min_capacity: nat) -> Seq<T> {
    if saved.len() > min_capacity {
        saved.subrange(saved.len() - min_capacity, saved.len() as int)
    } else {
        saved
    }
}

/// The sequence after a clear.
pub open spec fn spec_cleared<T>() -> Seq<T> {
    Seq::empty()
}

/// Turns what reading the backing file gave into the loaded records: a
/// missing file is an empty history, a failure is reported as such.
pub fn load_records<T>(read: FileRead<T>) -> (r: Result<Vec<T>, HistoryError>)
    ensures
        match read {
            FileRead::NotFound => r is Ok && r->Ok_0@ == Seq::<T>::empty(),
            FileRead::Decoded(v) => r is Ok && r->Ok_0@ == v@,
            FileRead::IoFailed(m) => {
                &&& r matches Err(HistoryError::Io { message }) && message@ == m@
            },
            FileRead::DecodeFailed(m) => {
                &&& r matches Err(HistoryError::Serde { message }) && message@ == m@
            },
        },
        r is Ok <==> spec_loaded(read) is Some,
        r is Ok ==> r->Ok_0@ == spec_loaded(read)->Some_0,
{
    match read {
        FileRead::NotFound => Ok(Vec::new()),
        FileRead::Decoded(v) => Ok(v),
        FileRead::IoFailed(message) => Err(HistoryError::Io { message }),
        FileRead::DecodeFailed(message) => Err(HistoryError::Serde { message }),
    }
}

/// Appends `new_records`, in order, after the `saved` ones.
pub fn save_records<T>(saved: Vec<T>, new_records: Vec<T>) -> (r: Vec<T>)
    ensures
        r@ == spec_saved(saved@, new_records@),
{
    let mut saved = saved;
    let mut new_records = new_records;
    saved.append(&mut new_records);
    saved
}

/// Appends one record after the `saved` ones.
pub fn put_record<T>(saved: Vec<T>, record: T) -> (r: Vec<T>)
    ensures
        r@ == spec_put(saved@, record),
{
    let ghost before = saved@;
    let mut saved = saved;
    saved.push(record);
    assert(saved@ =~= spec_put(before, record));
    saved
}

/// Drops records from the front, oldest first, until at most
/// `min_capacity` remain.
pub fn shrink_records<T>(saved: Vec<T>, min_capacity: usize) -> (r: Vec<T>)
    ensures
        r@ == spec_shrunk(saved@, min_capacity as nat),
{
    let ghost before = saved@;
    let mut saved = saved;
    let to_shrink: usize = if saved.len() > min_capacity {
        saved.len() - min_capacity
    } else {
        0
    };
    let mut i: usize = 0;
    while i < to_shrink
        invariant
            i <= to_shrink,
            to_shrink <= before.len(),
            saved@ == before.subrange(i as int, before.len() as int),
        decreases to_shrink - i,
    {
        saved.remove(0);
        i = i + 1;
    }
    assert(saved@ =~= spec_shrunk(before, min_capacity as nat));
    saved
}

/// The sequence a clear leaves: no records.
pub fn cleared_records<T>() -> (r: Vec<T>)
    ensures
        r@ == spec_cleared::<T>(),
{
    Vec::new()
}

/// Two records put one after the other follow the saved ones in the order
/// they were put; onto an empty history they are the whole of it.
pub proof fn lemma_put_keeps_order<T>(saved: Seq<T>, r1: T, r2: T)
    ensures
        spec_put(spec_put(saved, r1), r2) == saved + seq![r1, r2],
        spec_put(spec_put(Seq::<T>::empty(), r1), r2) == seq![r1, r2],
{
    assert(spec_put(spec_put(saved, r1), r2) =~= saved + seq![r1, r2]);
    assert(spec_put(spec_put(Seq::<T>::empty(), r1), r2) =~= seq![r1, r2]);
}

/// Shrinking keeps the newest records, in order, removing the oldest; where
/// there are no more than `min_capacity` records it changes nothing.
pub proof fn lemma_shrink_removes_oldest<T>(saved: Seq<T>, min_capacity: nat)
    ensures
        saved.len() <= min_capacity ==> spec_shrunk(saved, min_capacity) == saved,
        saved.len() > min_capacity ==> spec_shrunk(saved, min_capacity).len() == min_capacity,
        forall|i: int|
            0 <= i < spec_shrunk(saved, min_capacity).len() ==> #[trigger] spec_shrunk(
                saved,
                min_capacity,
            )[i] == saved[saved.len() - spec_shrunk(saved, min_capacity).len() + i],
{
}

/// A load after a clear finds no records.
pub proof fn lemma_clear_then_load<T>(written: Vec<T>)
    requires
        written@ == spec_cleared::<T>(),
    ensures
        spec_loaded(FileRead::Decoded(written)) == Some(Seq::<T>::empty()),
{
}

/// A load where no file exists finds no records and no error.
pub proof fn lemma_missing_file_is_empty<T>()
    ensures
        spec_loaded(FileRead::<T>::NotFound) == Some(Seq::<T>::empty()),
{
}

/// A store of clipboard history kept in one file at `path`.
pub struct SimpleDBDriver {
    path: String,
}

impl SimpleDBDriver {
    pub closed spec fn spec_path(&self) -> Seq<char> {
        self.path@
    }

    pub fn new(path: &str) -> (r: SimpleDBDriver)
        ensures
            r.spec_path() == path@,
    {
        SimpleDBDriver { path: path.to_owned() }
    }

    pub fn path(&self) -> (r: &str)
        ensures
            r@ == self.spec_path(),
    {
        self.path.as_str()
    }
}

} // verus!
