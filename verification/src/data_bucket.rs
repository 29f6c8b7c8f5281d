//! The data model of the library: typed arrays, their metadata, and the
//! named registry that stores them.
use crate::DataStream;
use crate::Source;
use vstd::prelude::*;

verus! {

/// The nature of a relationship between two data arrays.
pub enum LinkType {
    /// Each primary unit of the data corresponds to one unit of the linked data.
    OneToOne,
    /// The linker data represents handles to the linked data.
    Handle,
    /// The linker data is a reduction of the linked data.
    Reduced,
}

/// A directed relationship between two data arrays, named by the arrays
/// involved.
pub struct Link {
    /// nature of the link between the data
    pub nature: LinkType,
    /// the name of the data that is referencing some other data
    pub linker: String,
    /// the name of the primary data being referenced
    pub linkee: String,
}

/// Descriptive metadata for one data array.
pub struct MetaData {
    /// name of the data array
    pub name: String,
    /// units of the data
    pub units: Option<String>,
    /// general description of the data
    pub description: Option<String>,
    /// full dimensions of the data
    pub dimensions: Vec<usize>,
    /// dimensions of a unit size of the data
    pub unitary_dimensions: Vec<usize>,
    /// links to other data in the same bucket
    pub links: Vec<Link>,
}

/// An array of data together with its inherent metadata.
pub struct DataBlob<T> {
    data: Vec<T>,
    meta: MetaData,
}

impl<T> DataBlob<T> {
    /// The sequence of values the blob owns.
    pub closed spec fn spec_data(&self) -> Seq<T> {
        self.data@
    }

    /// The metadata the blob owns.
    pub closed spec fn spec_meta(&self) -> MetaData {
        self.meta
    }

    /// Construct a blob owning the given data and metadata.
    ///
    /// No validation is performed: any mismatch between the data length and
    /// the declared dimensions is accepted and left to the caller.
    pub fn new(new_data: Vec<T>, new_meta: MetaData) -> (b: Self)
        ensures
            b.spec_data() == new_data@,
            b.spec_meta() == new_meta,
    {
        Self { data: new_data, meta: new_meta }
    }

    /// Get the underlying data immutably.
    pub fn get_data(&self) -> (r: &Vec<T>)
        ensures
            r@ == self.spec_data(),
    {
        &self.data
    }

    /// Get the underlying data mutably.
    ///
    /// Mutation has no automatic effect on the metadata: the caller must keep
    /// the declared dimensions consistent.
    pub fn get_mut_data(&mut self) -> (r: &mut Vec<T>)
        ensures
            (*r)@ == old(self).spec_data(),
            final(self).spec_data() == (*final(r))@,
            final(self).spec_meta() == old(self).spec_meta(),
    {
        &mut self.data
    }

    /// Get the associated metadata immutably.
    pub fn get_meta_data(&self) -> (r: &MetaData)
        ensures
            *r == self.spec_meta(),
    {
        &self.meta
    }

    /// Get the associated metadata mutably.
    pub fn get_mut_meta_data(&mut self) -> (r: &mut MetaData)
        ensures
            *r == old(self).spec_meta(),
            final(self).spec_meta() == *final(r),
            final(self).spec_data() == old(self).spec_data(),
    {
        &mut self.meta
    }
}

/// The fixed set of primitive element kinds a blob may carry.
///
/// Each kind can duplicate a value exactly, which is what lets a blob
/// snapshot its owned data into a stream.
pub trait Element: Sized {
    /// Produce a value equal to this one.
    fn duplicate(&self) -> (r: Self)
        ensures
            r == *self,
    ;
}

impl Element for bool {
    fn duplicate(&self) -> (r: Self) {
        *self
    }
}

impl Element for char {
    fn duplicate(&self) -> (r: Self) {
        *self
    }
}

impl Element for i8 {
    fn duplicate(&self) -> (r: Self) {
        *self
    }
}

impl Element for u8 {
    fn duplicate(&self) -> (r: Self) {
        *self
    }
}

impl Element for i16 {
    fn duplicate(&self) -> (r: Self) {
        *self
    }
}

impl Element for u16 {
    fn duplicate(&self) -> (r: Self) {
        *self
    }
}

impl Element for i32 {
    fn duplicate(&self) -> (r: Self) {
        *self
    }
}

impl Element for u32 {
    fn duplicate(&self) -> (r: Self) {
        *self
    }
}

impl Element for i64 {
    fn duplicate(&self) -> (r: Self) {
        *self
    }
}

impl Element for u64 {
    fn duplicate(&self) -> (r: Self) {
        *self
    }
}

impl Element for i128 {
    fn duplicate(&self) -> (r: Self) {
        *self
    }
}

impl Element for u128 {
    fn duplicate(&self) -> (r: Self) {
        *self
    }
}

impl Element for isize {
    fn duplicate(&self) -> (r: Self) {
        *self
    }
}

impl Element for usize {
    fn duplicate(&self) -> (r: Self) {
        *self
    }
}

impl Element for F32Bits {
    fn duplicate(&self) -> (r: Self) {
        *self
    }
}

impl Element for F64Bits {
    fn duplicate(&self) -> (r: Self) {
        *self
    }
}

impl Element for String {
    fn duplicate(&self) -> (r: Self) {
        self.clone()
    }
}

/// A `DataBlob` publishes its owned data as a stream: an eager snapshot of
/// every element, taken at call time. Mutating the owned data between calls
/// changes subsequent snapshots, but two calls with no mutation in between
/// repeat the same output.
impl<T: Element> Source<T> for DataBlob<T> {
    open spec fn source_view(&self) -> Seq<T> {
        self.spec_data()
    }

    fn stream(&self) -> (s: DataStream<T>) {
        let mut items: Vec<T> = Vec::new();
        let mut idx: usize = 0;
        while idx < self.data.len()
            invariant
                idx <= self.data@.len(),
                items@ == self.data@.subrange(0, idx as int),
            decreases self.data@.len() - idx,
        {
            let elem: &T = &self.data[idx];
            items.push(elem.duplicate());
            idx = idx + 1;
            assert(items@ =~= self.data@.subrange(0, idx as int));
        }
        assert(items@ =~= self.spec_data());
        DataStream::new(items)
    }
}

/// A 32-bit real number, held by its bit pattern so that the registry can
/// carry such arrays as plain values.
#[derive(Clone, Copy, PartialEq, Eq, Structural, Debug)]
pub struct F32Bits {
    /// the raw bit pattern of the number
    pub bits: u32,
}

/// A 64-bit real number, held by its bit pattern so that the registry can
/// carry such arrays as plain values.
#[derive(Clone, Copy, PartialEq, Eq, Structural, Debug)]
pub struct F64Bits {
    /// the raw bit pattern of the number
    pub bits: u64,
}

/// A closed, tagged union with one variant per supported primitive element
/// kind, each wrapping a `DataBlob` of that kind.
///
/// The tag and the wrapped blob's element type always agree: there is no way
/// to construct a mismatched pairing. It is the only type the registry
/// stores; matching on the tag is the sole way to recover the concrete
/// element type.
pub enum DataBucketBlob {
    Bool(DataBlob<bool>),
    Char(DataBlob<char>),
    Int8(DataBlob<i8>),
    U8(DataBlob<u8>),
    Int16(DataBlob<i16>),
    U16(DataBlob<u16>),
    Int32(DataBlob<i32>),
    U32(DataBlob<u32>),
    Int64(DataBlob<i64>),
    U64(DataBlob<u64>),
    Int128(DataBlob<i128>),
    U128(DataBlob<u128>),
    ISize(DataBlob<isize>),
    USize(DataBlob<usize>),
    Float32(DataBlob<F32Bits>),
    Float64(DataBlob<F64Bits>),
    Str(DataBlob<String>),
}

impl DataBucketBlob {
    /// The metadata of the wrapped blob, whichever variant is active.
    pub open spec fn spec_meta(&self) -> MetaData {
        match self {
            DataBucketBlob::Bool(b) => b.spec_meta(),
            DataBucketBlob::Char(b) => b.spec_meta(),
            DataBucketBlob::Int8(b) => b.spec_meta(),
            DataBucketBlob::U8(b) => b.spec_meta(),
            DataBucketBlob::Int16(b) => b.spec_meta(),
            DataBucketBlob::U16(b) => b.spec_meta(),
            DataBucketBlob::Int32(b) => b.spec_meta(),
            DataBucketBlob::U32(b) => b.spec_meta(),
            DataBucketBlob::Int64(b) => b.spec_meta(),
            DataBucketBlob::U64(b) => b.spec_meta(),
            DataBucketBlob::Int128(b) => b.spec_meta(),
            DataBucketBlob::U128(b) => b.spec_meta(),
            DataBucketBlob::ISize(b) => b.spec_meta(),
            DataBucketBlob::USize(b) => b.spec_meta(),
            DataBucketBlob::Float32(b) => b.spec_meta(),
            DataBucketBlob::Float64(b) => b.spec_meta(),
            DataBucketBlob::Str(b) => b.spec_meta(),
        }
    }

    /// The name of the wrapped blob's array, as its metadata declares it.
    pub open spec fn spec_name(&self) -> Seq<char> {
        self.spec_meta().name@
    }

    /// Whether two wrapped blobs have the same tag and the same data
    /// sequence, whatever their metadata.
    pub open spec fn same_variant_and_data(a: DataBucketBlob, b: DataBucketBlob) -> bool {
        match (a, b) {
            (DataBucketBlob::Bool(x), DataBucketBlob::Bool(y)) => x.spec_data() == y.spec_data(),
            (DataBucketBlob::Char(x), DataBucketBlob::Char(y)) => x.spec_data() == y.spec_data(),
            (DataBucketBlob::Int8(x), DataBucketBlob::Int8(y)) => x.spec_data() == y.spec_data(),
            (DataBucketBlob::U8(x), DataBucketBlob::U8(y)) => x.spec_data() == y.spec_data(),
            (DataBucketBlob::Int16(x), DataBucketBlob::Int16(y)) => x.spec_data() == y.spec_data(),
            (DataBucketBlob::U16(x), DataBucketBlob::U16(y)) => x.spec_data() == y.spec_data(),
            (DataBucketBlob::Int32(x), DataBucketBlob::Int32(y)) => x.spec_data() == y.spec_data(),
            (DataBucketBlob::U32(x), DataBucketBlob::U32(y)) => x.spec_data() == y.spec_data(),
            (DataBucketBlob::Int64(x), DataBucketBlob::Int64(y)) => x.spec_data() == y.spec_data(),
            (DataBucketBlob::U64(x), DataBucketBlob::U64(y)) => x.spec_data() == y.spec_data(),
            (DataBucketBlob::Int128(x), DataBucketBlob::Int128(y)) => x.spec_data() == y.spec_data(),
            (DataBucketBlob::U128(x), DataBucketBlob::U128(y)) => x.spec_data() == y.spec_data(),
            (DataBucketBlob::ISize(x), DataBucketBlob::ISize(y)) => x.spec_data() == y.spec_data(),
            (DataBucketBlob::USize(x), DataBucketBlob::USize(y)) => x.spec_data() == y.spec_data(),
            (DataBucketBlob::Float32(x), DataBucketBlob::Float32(y)) => x.spec_data() == y.spec_data(),
            (DataBucketBlob::Float64(x), DataBucketBlob::Float64(y)) => x.spec_data() == y.spec_data(),
            (DataBucketBlob::Str(x), DataBucketBlob::Str(y)) => x.spec_data() == y.spec_data(),
            _ => false,
        }
    }

    /// Get the wrapped blob's metadata immutably, whichever variant is
    /// active.
    pub fn get_meta_data(&self) -> (r: &MetaData)
        ensures
            *r == self.spec_meta(),
    {
        match self {
            DataBucketBlob::Bool(blob) => blob.get_meta_data(),
            DataBucketBlob::Char(blob) => blob.get_meta_data(),
            DataBucketBlob::Int8(blob) => blob.get_meta_data(),
            DataBucketBlob::U8(blob) => blob.get_meta_data(),
            DataBucketBlob::Int16(blob) => blob.get_meta_data(),
            DataBucketBlob::U16(blob) => blob.get_meta_data(),
            DataBucketBlob::Int32(blob) => blob.get_meta_data(),
            DataBucketBlob::U32(blob) => blob.get_meta_data(),
            DataBucketBlob::Int64(blob) => blob.get_meta_data(),
            DataBucketBlob::U64(blob) => blob.get_meta_data(),
            DataBucketBlob::Int128(blob) => blob.get_meta_data(),
            DataBucketBlob::U128(blob) => blob.get_meta_data(),
            DataBucketBlob::ISize(blob) => blob.get_meta_data(),
            DataBucketBlob::USize(blob) => blob.get_meta_data(),
            DataBucketBlob::Float32(blob) => blob.get_meta_data(),
            DataBucketBlob::Float64(blob) => blob.get_meta_data(),
            DataBucketBlob::Str(blob) => blob.get_meta_data(),
        }
    }

    /// Get the wrapped blob's metadata mutably, whichever variant is active.
    ///
    /// The tag and the data sequence are left as they were; only the
    /// metadata can change through the returned reference.
    pub fn get_mut_meta_data(&mut self) -> (r: &mut MetaData)
        ensures
            *r == old(self).spec_meta(),
            final(self).spec_meta() == *final(r),
            Self::same_variant_and_data(*old(self), *final(self)),
    {
        match self {
            DataBucketBlob::Bool(blob) => blob.get_mut_meta_data(),
            DataBucketBlob::Char(blob) => blob.get_mut_meta_data(),
            DataBucketBlob::Int8(blob) => blob.get_mut_meta_data(),
            DataBucketBlob::U8(blob) => blob.get_mut_meta_data(),
            DataBucketBlob::Int16(blob) => blob.get_mut_meta_data(),
            DataBucketBlob::U16(blob) => blob.get_mut_meta_data(),
            DataBucketBlob::Int32(blob) => blob.get_mut_meta_data(),
            DataBucketBlob::U32(blob) => blob.get_mut_meta_data(),
            DataBucketBlob::Int64(blob) => blob.get_mut_meta_data(),
            DataBucketBlob::U64(blob) => blob.get_mut_meta_data(),
            DataBucketBlob::Int128(blob) => blob.get_mut_meta_data(),
            DataBucketBlob::U128(blob) => blob.get_mut_meta_data(),
            DataBucketBlob::ISize(blob) => blob.get_mut_meta_data(),
            DataBucketBlob::USize(blob) => blob.get_mut_meta_data(),
            DataBucketBlob::Float32(blob) => blob.get_mut_meta_data(),
            DataBucketBlob::Float64(blob) => blob.get_mut_meta_data(),
            DataBucketBlob::Str(blob) => blob.get_mut_meta_data(),
        }
    }
}

/// Whether the blobs of a sequence carry pairwise distinct names.
pub open spec fn names_distinct(s: Seq<DataBucketBlob>) -> bool {
    forall|i: int, j: int| 0 <= i < j < s.len() ==> s[i].spec_name() != s[j].spec_name()
}

/// The name-to-blob mapping that a sequence of blobs denotes.
pub open spec fn blob_map(s: Seq<DataBucketBlob>) -> Map<Seq<char>, DataBucketBlob>
    decreases s.len(),
{
    if s.len() == 0 {
        Map::empty()
    } else {
        blob_map(s.drop_last()).insert(s.last().spec_name(), s.last())
    }
}

/// `blob_map` holds a name exactly when some blob of the sequence carries it.
proof fn lemma_blob_map_contains(s: Seq<DataBucketBlob>, name: Seq<char>)
    ensures
        blob_map(s).contains_key(name) <==> exists|i: int| 0 <= i < s.len() && s[i].spec_name() == name,
    decreases s.len(),
{
    if s.len() > 0 {
        lemma_blob_map_contains(s.drop_last(), name);
        if blob_map(s).contains_key(name) {
            if s.last().spec_name() != name {
                let i = choose|i: int| 0 <= i < s.drop_last().len() && s.drop_last()[i].spec_name() == name;
                assert(s[i].spec_name() == name);
            }
        }
        if exists|i: int| 0 <= i < s.len() && s[i].spec_name() == name {
            let i = choose|i: int| 0 <= i < s.len() && s[i].spec_name() == name;
            if i < s.len() - 1 {
                assert(s.drop_last()[i].spec_name() == name);
            }
        }
    }
}

/// In a sequence of distinct names, `blob_map` sends each blob's name to
/// that blob.
proof fn lemma_blob_map_index(s: Seq<DataBucketBlob>, i: int)
    requires
        names_distinct(s),
        0 <= i < s.len(),
    ensures
        blob_map(s).contains_key(s[i].spec_name()),
        blob_map(s)[s[i].spec_name()] == s[i],
    decreases s.len(),
{
    lemma_blob_map_contains(s, s[i].spec_name());
    if i < s.len() - 1 {
        assert(names_distinct(s.drop_last()));
        assert(s.drop_last()[i] == s[i]);
        lemma_blob_map_index(s.drop_last(), i);
        assert(s[i].spec_name() != s.last().spec_name());
    }
}

/// Appending a blob to a sequence inserts it into the denoted mapping.
proof fn lemma_blob_map_push(s: Seq<DataBucketBlob>, b: DataBucketBlob)
    ensures
        blob_map(s.push(b)) == blob_map(s).insert(b.spec_name(), b),
{
    assert(s.push(b).drop_last() =~= s);
    assert(s.push(b).last() == b);
}

/// Removing the blob at an index of a sequence of distinct names removes
/// its name from the denoted mapping.
proof fn lemma_blob_map_remove(s: Seq<DataBucketBlob>, i: int)
    requires
        names_distinct(s),
        0 <= i < s.len(),
    ensures
        blob_map(s.remove(i)) == blob_map(s).remove(s[i].spec_name()),
    decreases s.len(),
{
    if i == s.len() - 1 {
        assert(s.remove(i) =~= s.drop_last());
        lemma_blob_map_contains(s.drop_last(), s[i].spec_name());
        assert forall|k: int| 0 <= k < s.drop_last().len() implies s.drop_last()[k].spec_name()
            != s[i].spec_name() by {
            assert(s[k] == s.drop_last()[k]);
        }
        assert(!blob_map(s.drop_last()).contains_key(s[i].spec_name()));
        assert(blob_map(s.remove(i)) =~= blob_map(s).remove(s[i].spec_name()));
    } else {
        assert(names_distinct(s.drop_last()));
        lemma_blob_map_remove(s.drop_last(), i);
        assert(s.remove(i).drop_last() =~= s.drop_last().remove(i));
        assert(s.remove(i).last() == s.last());
        assert(s[i].spec_name() != s.last().spec_name());
        assert(blob_map(s.remove(i)) =~= blob_map(s).remove(s[i].spec_name()));
    }
}

/// Every name that `blob_map` holds is the declared name of the blob it
/// denotes.
proof fn lemma_blob_map_key_names(s: Seq<DataBucketBlob>, name: Seq<char>)
    requires
        blob_map(s).contains_key(name),
    ensures
        blob_map(s)[name].spec_name() == name,
    decreases s.len(),
{
    if s.len() > 0 && s.last().spec_name() != name {
        lemma_blob_map_key_names(s.drop_last(), name);
    }
}

/// A named registry of typed arrays: a mapping from array name to the
/// `DataBucketBlob` registered under it.
///
/// The view of a bucket is that mapping. Every blob is stored under the name
/// its own metadata declares, and names are unique, so a name present in the
/// view always denotes a blob whose metadata name equals that key.
pub struct DataBucket {
    data: Vec<DataBucketBlob>,
}

impl View for DataBucket {
    type V = Map<Seq<char>, DataBucketBlob>;

    closed spec fn view(&self) -> Map<Seq<char>, DataBucketBlob> {
        blob_map(self.data@)
    }
}

impl DataBucket {
    #[verifier::type_invariant]
    spec fn wf(self) -> bool {
        names_distinct(self.data@)
    }

    /// Construct an empty registry.
    pub fn new() -> (b: Self)
        ensures
            b@ == Map::<Seq<char>, DataBucketBlob>::empty(),
    {
        Self { data: Vec::new() }
    }

    /// Find the index of the blob registered under a name, if any.
    fn find_index(&self, name: &String) -> (r: Option<usize>)
        ensures
            match r {
                Some(i) => i < self.data@.len() && self.data@[i as int].spec_name() == name@,
                None => forall|i: int|
                    0 <= i < self.data@.len() ==> self.data@[i].spec_name() != name@,
            },
    {
        let mut idx: usize = 0;
        while idx < self.data.len()
            invariant
                idx <= self.data@.len(),
                forall|i: int| 0 <= i < idx ==> self.data@[i].spec_name() != name@,
            decreases self.data@.len() - idx,
        {
            if self.data[idx].get_meta_data().name == *name {
                return Some(idx);
            }
            idx = idx + 1;
        }
        None
    }

    /// Get the blob registered under a name, or nothing if the name is
    /// absent; the registry keeps the blob either way.
    pub fn get_blob(&self, blob_name: &String) -> (r: Option<&DataBucketBlob>)
        ensures
            match r {
                Some(b) => self@.contains_key(blob_name@) && *b == self@[blob_name@],
                None => !self@.contains_key(blob_name@),
            },
    {
        proof {
            use_type_invariant(self);
        }
        match self.find_index(blob_name) {
            Some(i) => {
                proof {
                    lemma_blob_map_index(self.data@, i as int);
                }
                Some(&self.data[i])
            },
            None => {
                proof {
                    lemma_blob_map_contains(self.data@, blob_name@);
                }
                None
            },
        }
    }

    /// Register a blob under the name its metadata declares.
    ///
    /// If that name is already registered the call fails by returning the
    /// rejected blob back to the caller, unchanged, and the registry is left
    /// as it was; otherwise the blob is inserted and nothing is returned.
    pub fn add_blob(&mut self, new_blob: DataBucketBlob) -> (r: Option<DataBucketBlob>)
        ensures
            old(self)@.contains_key(new_blob.spec_name()) ==> r == Some(new_blob) && final(self)@
                == old(self)@,
            !old(self)@.contains_key(new_blob.spec_name()) ==> r is None && final(self)@ == old(
                self,
            )@.insert(new_blob.spec_name(), new_blob),
    {
        proof {
            use_type_invariant(&*self);
        }
        let name_ref: &String = &new_blob.get_meta_data().name;
        let found = self.find_index(name_ref);
        proof {
            lemma_blob_map_contains(self.data@, new_blob.spec_name());
        }
        if let Some(i) = found {
            proof {
                assert(old(self)@.contains_key(new_blob.spec_name()));
            }
            return Some(new_blob);
        }
        let mut v: Vec<DataBucketBlob> = Vec::new();
        core::mem::swap(&mut v, &mut self.data);
        proof {
            lemma_blob_map_push(v@, new_blob);
            assert forall|i: int, j: int| 0 <= i < j < v@.push(new_blob).len() implies v@.push(
                new_blob,
            )[i].spec_name() != v@.push(new_blob)[j].spec_name() by {
                assert(v@.push(new_blob)[i] == v@[i]);
                if j < v@.len() {
                    assert(v@.push(new_blob)[j] == v@[j]);
                    assert(v@[i].spec_name() != v@[j].spec_name());
                } else {
                    assert(v@.push(new_blob)[j] == new_blob);
                    assert(v@[i].spec_name() != new_blob.spec_name());
                }
            }
        }
        v.push(new_blob);
        self.data = v;
        None
    }

    /// Remove and return the blob registered under a name, transferring its
    /// ownership to the caller, or return nothing and leave the registry
    /// unchanged if the name is absent.
    pub fn pop_blob(&mut self, name: String) -> (r: Option<DataBucketBlob>)
        ensures
            old(self)@.contains_key(name@) ==> r == Some(old(self)@[name@]) && final(self)@ == old(
                self,
            )@.remove(name@),
            !old(self)@.contains_key(name@) ==> r is None && final(self)@ == old(self)@,
    {
        proof {
            use_type_invariant(&*self);
        }
        match self.find_index(&name) {
            Some(i) => {
                proof {
                    lemma_blob_map_index(self.data@, i as int);
                    lemma_blob_map_remove(self.data@, i as int);
                }
                let mut v: Vec<DataBucketBlob> = Vec::new();
                core::mem::swap(&mut v, &mut self.data);
                proof {
                    let s = v@.remove(i as int);
                    assert forall|p: int, q: int| 0 <= p < q < s.len() implies s[p].spec_name()
                        != s[q].spec_name() by {
                        let p0: int = if p < i { p } else { p + 1 };
                        let q0: int = if q < i { q } else { q + 1 };
                        assert(s[p] == v@[p0]);
                        assert(s[q] == v@[q0]);
                    }
                }
                let b = v.remove(i);
                self.data = v;
                Some(b)
            },
            None => {
                proof {
                    lemma_blob_map_contains(self.data@, name@);
                }
                None
            },
        }
    }
}

/// Law: a blob holds exactly the data and metadata it was constructed from,
/// so constructing a blob and reading it back yields the original sequence
/// unchanged, in order, for every element kind.
///
/// `DataBlob::new` ensures its result stands in this relation to its
/// arguments, and `get_data` and `get_meta_data` return exactly
/// `spec_data()` and `spec_meta()`.
pub proof fn lemma_blob_round_trip<T>(b: DataBlob<T>, data: Seq<T>, meta: MetaData)
    requires
        b.spec_data() == data,
        b.spec_meta() == meta,
    ensures
        b.spec_data() == data,
        b.spec_data().len() == data.len(),
        forall|i: int| 0 <= i < data.len() ==> b.spec_data()[i] == data[i],
        b.spec_meta().name@ == meta.name@,
{
}

/// Law: registering a blob under a name not already present always
/// succeeds, and a subsequent lookup of that name finds exactly the blob
/// that was inserted, with its metadata name and its variant intact.
///
/// `add_blob` ensures that on a fresh name the registry becomes
/// `m.insert(blob.spec_name(), blob)` and nothing is returned; `get_blob`
/// ensures it returns the entry of the view at the looked-up name.
pub proof fn lemma_register_then_lookup(m: Map<Seq<char>, DataBucketBlob>, blob: DataBucketBlob)
    requires
        !m.contains_key(blob.spec_name()),
    ensures
        m.insert(blob.spec_name(), blob).contains_key(blob.spec_name()),
        m.insert(blob.spec_name(), blob)[blob.spec_name()] == blob,
        m.insert(blob.spec_name(), blob)[blob.spec_name()].spec_name() == blob.spec_name(),
        DataBucketBlob::same_variant_and_data(
            m.insert(blob.spec_name(), blob)[blob.spec_name()],
            blob,
        ),
{
    lemma_same_variant_and_data_reflexive(blob);
}

/// Law: removing a blob by name yields exactly the blob registered under
/// that name, and a subsequent lookup of that name finds nothing.
///
/// `pop_blob` ensures that on a present name it returns the entry of the
/// view and leaves `m.remove(name)`; `get_blob` on the remainder then
/// ensures it returns nothing.
pub proof fn lemma_pop_then_lookup(m: Map<Seq<char>, DataBucketBlob>, name: Seq<char>)
    requires
        m.contains_key(name),
    ensures
        !m.remove(name).contains_key(name),
        forall|other: Seq<char>|
            other != name && m.contains_key(other) ==> m.remove(name).contains_key(other)
                && m.remove(name)[other] == m[other],
{
}

/// Law: a name present in the registry always denotes a blob whose own
/// metadata name equals that key.
///
/// This is the registry's standing invariant: `add_blob` stores every blob
/// under the name its metadata declares, and no operation changes a stored
/// blob's metadata.
pub proof fn lemma_bucket_name_agreement(b: &DataBucket, name: Seq<char>)
    requires
        b@.contains_key(name),
    ensures
        b@[name].spec_name() == name,
{
    lemma_blob_map_key_names(b.data@, name);
}

/// Every blob shares its tag and its data with itself.
proof fn lemma_same_variant_and_data_reflexive(b: DataBucketBlob)
    ensures
        DataBucketBlob::same_variant_and_data(b, b),
{
}

} // verus!
