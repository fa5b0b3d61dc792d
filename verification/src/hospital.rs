//! The hospital entity gateway: the uniform repository contract every
//! entity follows, its thin service passthrough, and an in-memory
//! repository that implements — and so witnesses — the contract.

use vstd::prelude::*;

use crate::errors::StoreUnavailable;

verus! {

/// One hospital row.
#[derive(Debug)]
pub struct Hospital {
    pub id_hospital: i32,
    pub name: String,
    pub address: String,
}

/// Body for creating a hospital; updates carry the same two columns.
pub struct CreateHospital {
    pub name: String,
    pub address: String,
}

/// Copies a hospital row, keeping its value.
pub fn duplicate_hospital(h: &Hospital) -> (r: Hospital)
    ensures
        r == *h,
{
    Hospital { id_hospital: h.id_hospital, name: h.name.clone(), address: h.address.clone() }
}

/// The first row at index `i` or later bearing the given id.
pub open spec fn spec_hospital_by_id_from(rows: Seq<Hospital>, id: i32, i: int) -> Option<Hospital>
    decreases rows.len() - i,
{
    if i < 0 || i >= rows.len() {
        None
    } else if rows[i].id_hospital == id {
        Some(rows[i])
    } else {
        spec_hospital_by_id_from(rows, id, i + 1)
    }
}

/// The row a point read returns: the first one bearing the id.
pub open spec fn spec_hospital_by_id(rows: Seq<Hospital>, id: i32) -> Option<Hospital> {
    spec_hospital_by_id_from(rows, id, 0)
}

/// The uniform contract of one entity gateway, over the hospital table. The
/// table's contents are modelled by `rows`, in table order; every method is
/// specified against that model. A store that cannot be reached answers
/// `StoreUnavailable` and promises nothing else.
pub trait HospitalRepository: Sized {
    /// The rows the store currently holds, in table order.
    spec fn rows(&self) -> Seq<Hospital>;

    /// Lists the rows.
    fn get_all(&self) -> (r: Result<Vec<Hospital>, StoreUnavailable>)
        ensures
            (r matches Ok(v) ==> v@ == self.rows()),
    ;

    /// Reads the first row bearing an id.
    fn get_by_id(&self, id: i32) -> (r: Result<Option<Hospital>, StoreUnavailable>)
        ensures
            (r matches Ok(o) ==> o == spec_hospital_by_id(self.rows(), id)),
    ;

    /// Appends a row carrying the submitted columns under a fresh id.
    fn create(&mut self, data: CreateHospital) -> (r: Result<Hospital, StoreUnavailable>)
        ensures
            (r matches Ok(h) ==> h.name@ == data.name@ && h.address@ == data.address@
                && final(self).rows() == old(self).rows().push(h)),
    ;

    /// Rewrites the first row bearing the id with the submitted columns,
    /// returning the row as rewritten; nothing comes back, and nothing
    /// changes, when no row bears the id.
    fn update(&mut self, id: i32, data: CreateHospital) -> (r: Result<
        Option<Hospital>,
        StoreUnavailable,
    >)
        ensures
            (r matches Ok(Some(h)) ==> h.id_hospital == id && h.name@ == data.name@ && h.address@
                == data.address@ && spec_hospital_by_id(old(self).rows(), id) is Some
                && spec_hospital_by_id(final(self).rows(), id) == Some(h)),
            (r matches Ok(None) ==> spec_hospital_by_id(old(self).rows(), id) is None && final(self).rows() == old(self).rows()),
    ;

    /// Removes the first row bearing the id, returning the removed row;
    /// nothing comes back, and nothing changes, when no row bears the id.
    fn delete(&mut self, id: i32) -> (r: Result<Option<Hospital>, StoreUnavailable>)
        ensures
            (r matches Ok(Some(h)) ==> spec_hospital_by_id(old(self).rows(), id) == Some(h)),
            (r matches Ok(None) ==> spec_hospital_by_id(old(self).rows(), id) is None && final(self).rows() == old(self).rows()),
    ;
}

/// The thin service over one hospital repository: a passthrough, kept so
/// that handlers depend on the interface and a test double can stand in.
pub struct HospitalService<R: HospitalRepository> {
    pub repo: R,
}

impl<R: HospitalRepository> HospitalService<R> {
    /// Wraps a repository.
    pub fn new(repo: R) -> (r: Self)
        ensures
            r.repo == repo,
    {
        Self { repo }
    }

    /// Lists the rows.
    pub fn get_all(&self) -> (r: Result<Vec<Hospital>, StoreUnavailable>)
        ensures
            (r matches Ok(v) ==> v@ == self.repo.rows()),
    {
        self.repo.get_all()
    }

    /// Reads the first row bearing an id.
    pub fn get_by_id(&self, id: i32) -> (r: Result<Option<Hospital>, StoreUnavailable>)
        ensures
            (r matches Ok(o) ==> o == spec_hospital_by_id(self.repo.rows(), id)),
    {
        self.repo.get_by_id(id)
    }

    /// Appends a row carrying the submitted columns.
    pub fn create(&mut self, data: CreateHospital) -> (r: Result<Hospital, StoreUnavailable>)
        ensures
            (r matches Ok(h) ==> h.name@ == data.name@ && h.address@ == data.address@
                && final(self).repo.rows() == old(self).repo.rows().push(h)),
    {
        self.repo.create(data)
    }

    /// Rewrites the first row bearing the id.
    pub fn update(&mut self, id: i32, data: CreateHospital) -> (r: Result<
        Option<Hospital>,
        StoreUnavailable,
    >)
        ensures
            (r matches Ok(Some(h)) ==> h.id_hospital == id && h.name@ == data.name@ && h.address@
                == data.address@ && spec_hospital_by_id(final(self).repo.rows(), id) == Some(h)),
            (r matches Ok(None) ==> spec_hospital_by_id(old(self).repo.rows(), id) is None
                && final(self).repo.rows() == old(self).repo.rows()),
    {
        self.repo.update(id, data)
    }

    /// Removes the first row bearing the id.
    pub fn delete(&mut self, id: i32) -> (r: Result<Option<Hospital>, StoreUnavailable>)
        ensures
            (r matches Ok(Some(h)) ==> spec_hospital_by_id(old(self).repo.rows(), id) == Some(h)),
            (r matches Ok(None) ==> spec_hospital_by_id(old(self).repo.rows(), id) is None
                && final(self).repo.rows() == old(self).repo.rows()),
    {
        self.repo.delete(id)
    }
}

/// An in-memory hospital repository: rows in insertion order, ids handed out
/// from a counter. The verified witness of the gateway contract, and the
/// test double the service runs on.
pub struct MemHospitalRepository {
    pub rows: Vec<Hospital>,
    pub next_id: i32,
}

impl MemHospitalRepository {
    /// An empty store whose first row will get the given id.
    pub fn starting_at(next_id: i32) -> (r: MemHospitalRepository)
        ensures
            r.rows@.len() == 0,
            r.next_id == next_id,
    {
        MemHospitalRepository { rows: Vec::new(), next_id }
    }
}

impl HospitalRepository for MemHospitalRepository {
    open spec fn rows(&self) -> Seq<Hospital> {
        self.rows@
    }

    fn get_all(&self) -> (r: Result<Vec<Hospital>, StoreUnavailable>) {
        let mut out: Vec<Hospital> = Vec::new();
        let n: usize = self.rows.len();
        for i in 0..n
            invariant
                n == self.rows@.len(),
                out@ == self.rows@.take(i as int),
        {
            out.push(duplicate_hospital(&self.rows[i]));
            proof {
                assert(out@ =~= self.rows@.take(i as int + 1));
            }
        }
        proof {
            assert(self.rows@.take(n as int) =~= self.rows@);
        }
        Ok(out)
    }

    fn get_by_id(&self, id: i32) -> (r: Result<Option<Hospital>, StoreUnavailable>) {
        let n: usize = self.rows.len();
        for i in 0..n
            invariant
                n == self.rows@.len(),
                spec_hospital_by_id(self.rows@, id) == spec_hospital_by_id_from(
                    self.rows@,
                    id,
                    i as int,
                ),
        {
            if self.rows[i].id_hospital == id {
                return Ok(Some(duplicate_hospital(&self.rows[i])));
            }
        }
        Ok(None)
    }

    fn create(&mut self, data: CreateHospital) -> (r: Result<Hospital, StoreUnavailable>) {
        let id = self.next_id;
        let bumped = match id.checked_add(1) {
            Some(b) => b,
            None => {
                return Err(StoreUnavailable);
            },
        };
        let row = Hospital { id_hospital: id, name: data.name, address: data.address };
        self.rows.push(duplicate_hospital(&row));
        self.next_id = bumped;
        Ok(row)
    }

    fn update(&mut self, id: i32, data: CreateHospital) -> (r: Result<
        Option<Hospital>,
        StoreUnavailable,
    >) {
        let n: usize = self.rows.len();
        for i in 0..n
            invariant
                n == self.rows@.len(),
                self.rows@ == old(self).rows@,
                self.next_id == old(self).next_id,
                spec_hospital_by_id(self.rows@, id) == spec_hospital_by_id_from(
                    self.rows@,
                    id,
                    i as int,
                ),
                forall|j: int| 0 <= j < i ==> self.rows@[j].id_hospital != id,
        {
            if self.rows[i].id_hospital == id {
                let row = Hospital { id_hospital: id, name: data.name, address: data.address };
                self.rows.remove(i);
                self.rows.insert(i, duplicate_hospital(&row));
                proof {
                    lemma_first_match_after_rewrite(old(self).rows@, self.rows@, id, i as int);
                }
                return Ok(Some(row));
            }
        }
        Ok(None)
    }

    fn delete(&mut self, id: i32) -> (r: Result<Option<Hospital>, StoreUnavailable>) {
        let n: usize = self.rows.len();
        for i in 0..n
            invariant
                n == self.rows@.len(),
                self.rows@ == old(self).rows@,
                self.next_id == old(self).next_id,
                spec_hospital_by_id(self.rows@, id) == spec_hospital_by_id_from(
                    self.rows@,
                    id,
                    i as int,
                ),
        {
            if self.rows[i].id_hospital == id {
                let row = self.rows.remove(i);
                return Ok(Some(row));
            }
        }
        Ok(None)
    }
}

/// After the row at the first matching index has been rewritten in place —
/// same id, new columns — the first match of the new table is the rewritten
/// row.
proof fn lemma_first_match_after_rewrite(
    before: Seq<Hospital>,
    after: Seq<Hospital>,
    id: i32,
    i: int,
)
    requires
        0 <= i < before.len(),
        after.len() == before.len(),
        forall|j: int| 0 <= j < i ==> after[j] == before[j],
        forall|j: int| 0 <= j < i ==> before[j].id_hospital != id,
        after[i].id_hospital == id,
    ensures
        spec_hospital_by_id(after, id) == Some(after[i]),
{
    lemma_first_match_from(after, id, i, 0);
}

proof fn lemma_first_match_from(rows: Seq<Hospital>, id: i32, i: int, j: int)
    requires
        0 <= j <= i < rows.len(),
        forall|k: int| 0 <= k < i ==> rows[k].id_hospital != id,
        rows[i].id_hospital == id,
    ensures
        spec_hospital_by_id_from(rows, id, j) == Some(rows[i]),
    decreases i - j,
{
    if j < i {
        lemma_first_match_from(rows, id, i, j + 1);
    }
}

} // verus!
