use vstd::prelude::*;

verus! {

/// A 32-byte value: a challenge hash, a signage-point hash, a puzzle hash,
/// or a secret-key scalar.
pub struct Bytes32 {
    pub bytes: Vec<u8>,
}

/// A 48-byte value: a BLS public key in compressed form.
pub struct Bytes48 {
    pub bytes: Vec<u8>,
}

/// A 96-byte value: a BLS signature in compressed form.
pub struct Bytes96 {
    pub bytes: Vec<u8>,
}

impl Bytes32 {
    pub open spec fn wf(&self) -> bool {
        self.bytes@.len() == 32
    }
}

impl Bytes48 {
    pub open spec fn wf(&self) -> bool {
        self.bytes@.len() == 48
    }
}

impl Bytes96 {
    pub open spec fn wf(&self) -> bool {
        self.bytes@.len() == 96
    }
}

impl View for Bytes32 {
    type V = Seq<u8>;

    open spec fn view(&self) -> Seq<u8> {
        self.bytes@
    }
}

impl View for Bytes48 {
    type V = Seq<u8>;

    open spec fn view(&self) -> Seq<u8> {
        self.bytes@
    }
}

impl View for Bytes96 {
    type V = Seq<u8>;

    open spec fn view(&self) -> Seq<u8> {
        self.bytes@
    }
}

impl DeepView for Bytes32 {
    type V = Seq<u8>;

    open spec fn deep_view(&self) -> Seq<u8> {
        self.bytes@
    }
}

impl DeepView for Bytes48 {
    type V = Seq<u8>;

    open spec fn deep_view(&self) -> Seq<u8> {
        self.bytes@
    }
}

impl DeepView for Bytes96 {
    type V = Seq<u8>;

    open spec fn deep_view(&self) -> Seq<u8> {
        self.bytes@
    }
}

/// Byte-for-byte equality of two byte vectors.
pub fn bytes_eq(a: &Vec<u8>, b: &Vec<u8>) -> (r: bool)
    ensures
        r == (a@ == b@),
{
    if a.len() != b.len() {
        return false;
    }
    let mut i: usize = 0;
    while i < a.len()
        invariant
            0 <= i <= a@.len(),
            a@.len() == b@.len(),
            forall|j: int| 0 <= j < i ==> a@[j] == b@[j],
        decreases a@.len() - i,
    {
        if a[i] != b[i] {
            return false;
        }
        i = i + 1;
    }
    proof {
        assert(a@ =~= b@);
    }
    true
}

/// A fresh copy of a byte vector.
pub fn bytes_copy(a: &Vec<u8>) -> (r: Vec<u8>)
    ensures
        r@ == a@,
{
    let mut out: Vec<u8> = Vec::new();
    let mut i: usize = 0;
    while i < a.len()
        invariant
            0 <= i <= a@.len(),
            out@ == a@.take(i as int),
        decreases a@.len() - i,
    {
        out.push(a[i]);
        i = i + 1;
    }
    proof {
        assert(a@.take(a@.len() as int) =~= a@);
    }
    out
}

impl Bytes32 {
    pub fn duplicate(&self) -> (r: Bytes32)
        ensures
            r@ == self@,
            r.wf() == self.wf(),
    {
        Bytes32 { bytes: bytes_copy(&self.bytes) }
    }
}

impl Bytes48 {
    pub fn duplicate(&self) -> (r: Bytes48)
        ensures
            r@ == self@,
            r.wf() == self.wf(),
    {
        Bytes48 { bytes: bytes_copy(&self.bytes) }
    }
}

impl Bytes96 {
    pub fn duplicate(&self) -> (r: Bytes96)
        ensures
            r@ == self@,
            r.wf() == self.wf(),
    {
        Bytes96 { bytes: bytes_copy(&self.bytes) }
    }
}

} // verus!
