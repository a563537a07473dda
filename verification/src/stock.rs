//! The stock domain's toner slice: a name type that owns its trimming and
//! non-emptiness rule, the create and delete request shapes, their error
//! taxonomies, and the HTTP body types with their parse into the domain.

use vstd::prelude::*;
use vstd::string::*;

use crate::ids::{canonical_uuid, fresh_uuid, spec_canonical, spec_is_uuid};

verus! {

/// What `str::trim` leaves of a string: the name stands for its result, which
/// depends on the characters alone.
pub uninterp spec fn trimmed_of(s: Seq<char>) -> Seq<char>;

/// Relies on `str::trim`: the input without leading and trailing whitespace,
/// a subslice of the input.
#[verifier::external_body]
fn trim_str(s: &str) -> (r: String)
    ensures
        r@ == trimmed_of(s@),
        r@.len() <= s@.len(),
        s@.len() == 0 ==> r@.len() == 0,
{
    s.trim().to_string()
}

/// A toner name may not be empty once trimmed.
#[derive(Clone, Copy, Debug, PartialEq, Eq, Structural)]
pub struct TonerNameEmptyError;

/// A toner id must be well-formed.
#[derive(Clone, Copy, Debug, PartialEq, Eq, Structural)]
pub struct TonerIdEmptyError;

/// A validated, trimmed, non-empty toner name.
#[derive(Clone, Debug)]
pub struct TonerName(String);

impl View for TonerName {
    type V = Seq<char>;

    closed spec fn view(&self) -> Seq<char> {
        self.0@
    }
}

impl TonerName {
    /// Trim the raw input; an empty remainder is rejected.
    pub fn new(raw: &str) -> (r: Result<TonerName, TonerNameEmptyError>)
        ensures
            r matches Ok(n) ==> n@ == trimmed_of(raw@) && n@.len() != 0,
            r is Ok <==> trimmed_of(raw@).len() != 0,
            r is Err ==> r == Err::<TonerName, TonerNameEmptyError>(TonerNameEmptyError),
    {
        let trimmed = trim_str(raw);
        if trimmed.as_str().is_empty() {
            Err(TonerNameEmptyError)
        } else {
            Ok(TonerName(trimmed))
        }
    }

    /// The name as a string.
    pub fn as_str(&self) -> (r: &str)
        ensures
            r@ == self@,
    {
        self.0.as_str()
    }
}

/// A toner of the stock domain: an id and a validated name.
#[derive(Clone, Debug)]
pub struct Toner {
    id: String,
    name: TonerName,
}

impl Toner {
    pub closed spec fn spec_id(self) -> Seq<char> {
        self.id@
    }

    pub closed spec fn spec_name(self) -> Seq<char> {
        self.name@
    }

    pub fn new(id: String, name: TonerName) -> (r: Toner)
        ensures
            r.spec_id() == id@,
            r.spec_name() == name@,
    {
        Toner { id, name }
    }

    pub fn id(&self) -> (r: &String)
        ensures
            r@ == self.spec_id(),
    {
        &self.id
    }

    pub fn name(&self) -> (r: &TonerName)
        ensures
            r@ == self.spec_name(),
    {
        &self.name
    }
}

/// A validated request to create a toner.
#[derive(Clone, Debug)]
pub struct CreateTonerRequest {
    name: TonerName,
}

impl CreateTonerRequest {
    pub closed spec fn spec_name(self) -> Seq<char> {
        self.name@
    }

    pub fn new(name: TonerName) -> (r: CreateTonerRequest)
        ensures
            r.spec_name() == name@,
    {
        CreateTonerRequest { name }
    }

    pub fn name(&self) -> (r: &TonerName)
        ensures
            r@ == self.spec_name(),
    {
        &self.name
    }
}

/// Why creating a toner failed.
#[derive(Clone, Debug)]
pub enum CreateTonerError {
    /// A toner with this name already exists.
    Duplicate { name: TonerName },
    /// The repository failed for an unrelated reason.
    Unknown,
}

/// A validated request to delete a toner.
#[derive(Clone, Debug)]
pub struct DeleteTonerRequest {
    id: String,
}

impl DeleteTonerRequest {
    pub closed spec fn spec_id(self) -> Seq<char> {
        self.id@
    }

    pub fn new(id: String) -> (r: DeleteTonerRequest)
        ensures
            r.spec_id() == id@,
    {
        DeleteTonerRequest { id }
    }

    pub fn id(&self) -> (r: &String)
        ensures
            r@ == self.spec_id(),
    {
        &self.id
    }
}

/// Why deleting a toner failed.
#[derive(Clone, Debug)]
pub enum DeleteTonerError {
    /// No toner carries this id.
    NotFound { id: String },
    /// The repository failed for an unrelated reason.
    Unknown,
}

/// The stock repository the domain services drive: toners by unique id,
/// created under a fresh id with a unique name, deleted by id.
pub struct TonerRepository {
    toners: Vec<Toner>,
}

impl TonerRepository {
    /// The rows, in insertion order.
    pub closed spec fn rows(self) -> Seq<Toner> {
        self.toners@
    }

    /// Ids are unique across rows.
    pub open spec fn wf(self) -> bool {
        forall|i: int, j: int|
            0 <= i < j < self.rows().len() ==> #[trigger] self.rows()[i].spec_id()
                != #[trigger] self.rows()[j].spec_id()
    }

    pub open spec fn has_name(self, name: Seq<char>) -> bool {
        exists|i: int| 0 <= i < self.rows().len() && #[trigger] self.rows()[i].spec_name() == name
    }

    pub open spec fn has_id(self, id: Seq<char>) -> bool {
        exists|i: int| 0 <= i < self.rows().len() && #[trigger] self.rows()[i].spec_id() == id
    }

    /// An empty repository.
    pub fn new() -> (r: TonerRepository)
        ensures
            r.wf(),
            r.rows() =~= Seq::<Toner>::empty(),
    {
        TonerRepository { toners: Vec::new() }
    }

    /// Create a toner under the given id. A row with the same name already
    /// there is a `Duplicate`; an id that is already taken is what the store
    /// would refuse as a key violation, reported as `Unknown`. With a free
    /// name and a free id, the insert succeeds.
    pub fn create_toner_with(&mut self, req: &CreateTonerRequest, id: &String) -> (r: Result<
        Toner,
        CreateTonerError,
    >)
        requires
            old(self).wf(),
        ensures
            final(self).wf(),
            ({
                let pre = *old(self);
                let post = *final(self);
                &&& pre.has_name(req.spec_name()) ==> (r matches Err(
                    CreateTonerError::Duplicate { name },
                ) && name@ == req.spec_name()) && post.rows() == pre.rows()
                &&& !pre.has_name(req.spec_name()) && pre.has_id(id@) ==> (r matches Err(e)
                    && e is Unknown) && post.rows() == pre.rows()
                &&& !pre.has_name(req.spec_name()) && !pre.has_id(id@) ==> (r matches Ok(t)
                    && t.spec_id() == id@ && t.spec_name() == req.spec_name() && post.rows()
                    == pre.rows().push(t))
            }),
    {
        let n = self.toners.len();
        let mut i: usize = 0;
        while i < n
            invariant
                self.wf(),
                self.rows() == old(self).rows(),
                n == self.rows().len(),
                i <= n,
                forall|j: int| 0 <= j < i ==> #[trigger] self.rows()[j].spec_name()
                    != req.spec_name(),
            decreases n - i,
        {
            if self.toners[i].name.0 == req.name.0 {
                proof {
                    assert(old(self).rows()[i as int].spec_name() == req.spec_name());
                    assert(old(self).has_name(req.spec_name()));
                }
                return Err(
                    CreateTonerError::Duplicate { name: TonerName(req.name.0.clone()) },
                );
            }
            i = i + 1;
        }
        let mut k: usize = 0;
        while k < n
            invariant
                self.wf(),
                self.rows() == old(self).rows(),
                n == self.rows().len(),
                k <= n,
                forall|j: int|
                    0 <= j < n ==> #[trigger] self.rows()[j].spec_name() != req.spec_name(),
                forall|j: int| 0 <= j < k ==> #[trigger] self.rows()[j].spec_id() != id@,
            decreases n - k,
        {
            if self.toners[k].id == *id {
                proof {
                    assert(old(self).rows()[k as int].spec_id() == id@);
                    assert(old(self).has_id(id@));
                }
                return Err(CreateTonerError::Unknown);
            }
            k = k + 1;
        }
        let toner = Toner { id: id.clone(), name: TonerName(req.name.0.clone()) };
        let created = Toner { id: id.clone(), name: TonerName(req.name.0.clone()) };
        proof {
            let s = self.rows().push(toner);
            assert forall|a: int, b: int|
                0 <= a < b < s.len() implies s[a].spec_id() != s[b].spec_id() by {
                if b < s.len() - 1 {
                    assert(s[a] == self.rows()[a] && s[b] == self.rows()[b]);
                } else {
                    assert(s[a] == self.rows()[a] && s[b] == toner);
                }
            }
        }
        self.toners.push(toner);
        Ok(created)
    }

    /// Create a toner under a freshly drawn id: the insert of
    /// [`TonerRepository::create_toner_with`], which says what holds
    /// whichever id the draw produced.
    pub fn create_toner(&mut self, req: &CreateTonerRequest) -> (r: Result<Toner, CreateTonerError>)
        requires
            old(self).wf(),
        ensures
            final(self).wf(),
            ({
                let pre = *old(self);
                let post = *final(self);
                &&& pre.has_name(req.spec_name()) ==> (r matches Err(
                    CreateTonerError::Duplicate { name },
                ) && name@ == req.spec_name()) && post.rows() == pre.rows()
                &&& !pre.has_name(req.spec_name()) ==> (match r {
                    Ok(t) => spec_is_uuid(t.spec_id()) && t.spec_name() == req.spec_name()
                        && post.rows() == pre.rows().push(t),
                    Err(e) => e is Unknown && post.rows() == pre.rows(),
                })
            }),
    {
        let id = fresh_uuid();
        self.create_toner_with(req, &id)
    }

    /// Delete the toner under this id; an id that matches no row is a
    /// `NotFound`.
    pub fn delete_toner(&mut self, req: &DeleteTonerRequest) -> (r: Result<
        String,
        DeleteTonerError,
    >)
        requires
            old(self).wf(),
        ensures
            final(self).wf(),
            !old(self).has_id(req.spec_id()) ==> (r matches Err(DeleteTonerError::NotFound { id })
                && id@ == req.spec_id()) && final(self).rows() == old(self).rows(),
            old(self).has_id(req.spec_id()) ==> (r matches Ok(out) && out@ == req.spec_id()) && (
            exists|i: int|
                0 <= i < old(self).rows().len() && (#[trigger] old(self).rows()[i]).spec_id()
                    == req.spec_id() && final(self).rows() == old(self).rows().remove(i)),
    {
        let n = self.toners.len();
        let mut i: usize = 0;
        while i < n
            invariant
                self.wf(),
                self.rows() == old(self).rows(),
                n == self.rows().len(),
                i <= n,
                forall|j: int| 0 <= j < i ==> #[trigger] self.rows()[j].spec_id() != req.spec_id(),
            decreases n - i,
        {
            if self.toners[i].id == req.id {
                let ghost pre = self.rows();
                proof {
                    assert(old(self).rows()[i as int].spec_id() == req.spec_id());
                    assert(old(self).has_id(req.spec_id()));
                }
                self.toners.remove(i);
                proof {
                    assert forall|a: int, b: int|
                        0 <= a < b < self.rows().len() implies self.rows()[a].spec_id()
                        != self.rows()[b].spec_id() by {
                        let a0 = if a < i as int {
                            a
                        } else {
                            a + 1
                        };
                        let b0 = if b < i as int {
                            b
                        } else {
                            b + 1
                        };
                        assert(self.rows()[a] == pre[a0]);
                        assert(self.rows()[b] == pre[b0]);
                    }
                }
                proof {
                    assert(self.rows() == old(self).rows().remove(i as int));
                }
                return Ok(req.id.clone());
            }
            i = i + 1;
        }
        Err(DeleteTonerError::NotFound { id: req.id.clone() })
    }
}

/// Wire shape of the create-toner request body.
#[derive(Clone, Debug)]
pub struct CreateTonerRequestBody {
    pub name: String,
}

/// Wire shape of the create-toner response body.
#[derive(Clone, Debug)]
pub struct CreateTonerResponseData {
    pub id: String,
}

impl CreateTonerResponseData {
    pub fn from_toner(toner: &Toner) -> (r: CreateTonerResponseData)
        ensures
            r.id@ == toner.spec_id(),
    {
        CreateTonerResponseData { id: toner.id().clone() }
    }
}

/// The create-toner body as the HTTP edge hands it over.
#[derive(Clone, Debug)]
pub struct CreateTonerHttpRequestBody {
    pub name: String,
}

impl CreateTonerHttpRequestBody {
    /// Parse the wire body into a domain request: the name is trimmed and
    /// must not come out empty.
    pub fn try_into_domain(self) -> (r: Result<CreateTonerRequest, TonerNameEmptyError>)
        ensures
            r matches Ok(req) ==> req.spec_name() == trimmed_of(self.name@),
            r is Ok <==> trimmed_of(self.name@).len() != 0,
            r is Err ==> r == Err::<CreateTonerRequest, TonerNameEmptyError>(TonerNameEmptyError),
    {
        let name = match TonerName::new(self.name.as_str()) {
            Ok(n) => n,
            Err(e) => {
                return Err(e);
            },
        };
        Ok(CreateTonerRequest::new(name))
    }
}

/// Wire shape of the delete-toner request body.
#[derive(Clone, Debug)]
pub struct DeleteTonerRequestBody {
    pub id: String,
}

/// Wire shape of the delete-toner response body.
#[derive(Clone, Debug)]
pub struct DeleteTonerResponseData {
    pub id: String,
}

impl DeleteTonerResponseData {
    pub fn from_toner_id(toner_id: &String) -> (r: DeleteTonerResponseData)
        ensures
            r.id@ == toner_id@,
    {
        DeleteTonerResponseData { id: toner_id.clone() }
    }

    pub fn from_toner(toner: &Toner) -> (r: DeleteTonerResponseData)
        ensures
            r.id@ == toner.spec_id(),
    {
        DeleteTonerResponseData { id: toner.id().clone() }
    }
}

/// The delete-toner body as the HTTP edge hands it over.
#[derive(Clone, Debug)]
pub struct DeleteTonerHttpRequestBody {
    pub id: String,
}

impl DeleteTonerHttpRequestBody {
    /// Parse the wire body into a domain request: the id must be a
    /// well-formed opaque id, and the request carries it in canonical form.
    pub fn try_into_domain(self) -> (r: Result<DeleteTonerRequest, TonerIdEmptyError>)
        ensures
            r matches Ok(req) ==> req.spec_id() == spec_canonical(self.id@),
            r is Ok <==> spec_is_uuid(self.id@),
            r is Err ==> r == Err::<DeleteTonerRequest, TonerIdEmptyError>(TonerIdEmptyError),
    {
        match canonical_uuid(self.id.as_str()) {
            Some(canonical) => Ok(DeleteTonerRequest::new(canonical)),
            None => Err(TonerIdEmptyError),
        }
    }
}

} // verus!
