//! The records of the organization that the screens read: facilities and
//! clients (inventory owners), with the fields the labels are made of.
use vstd::prelude::*;

verus! {

/// A facility.
#[derive(Clone, Debug)]
pub struct Facility {
    pub id: i64,
    pub name: Option<String>,
    /// When the facility was deactivated, if it was.
    pub deleted: Option<String>,
}

/// A client whose inventory the warehouse holds.
#[derive(Clone, Debug)]
pub struct InventoryOwner {
    pub id: i64,
    pub name: String,
    pub email: String,
    /// When the client was deactivated, if it was.
    pub deleted: Option<String>,
    /// The facilities the client is assigned to.
    pub facility_ids: Vec<i64>,
}

/// The first client with the id, if any.
pub open spec fn find_owner(clients: Seq<InventoryOwner>, id: i64) -> Option<InventoryOwner>
    decreases clients.len(),
{
    if clients.len() == 0 {
        None
    } else if clients[0].id == id {
        Some(clients[0])
    } else {
        find_owner(clients.drop_first(), id)
    }
}

/// The first facility with the id, if any.
pub open spec fn find_facility(facilities: Seq<Facility>, id: i64) -> Option<Facility>
    decreases facilities.len(),
{
    if facilities.len() == 0 {
        None
    } else if facilities[0].id == id {
        Some(facilities[0])
    } else {
        find_facility(facilities.drop_first(), id)
    }
}

/// Finds the first client with the id.
pub fn find_owner_at(clients: &[InventoryOwner], id: i64) -> (r: Option<usize>)
    ensures
        match r {
            Some(i) => i < clients@.len() && find_owner(clients@, id) == Some(clients@[i as int]),
            None => find_owner(clients@, id) is None,
        },
{
    let mut i: usize = 0;
    assert(clients@.skip(0) =~= clients@);
    while i < clients.len()
        invariant
            i <= clients@.len(),
            find_owner(clients@, id) == find_owner(clients@.skip(i as int), id),
        decreases clients@.len() - i,
    {
        if clients[i].id == id {
            return Some(i);
        }
        assert(clients@.skip(i as int).drop_first() =~= clients@.skip(i + 1));
        i = i + 1;
    }
    None
}

/// Finds the first facility with the id.
pub fn find_facility_at(facilities: &[Facility], id: i64) -> (r: Option<usize>)
    ensures
        match r {
            Some(i) => i < facilities@.len() && find_facility(facilities@, id) == Some(
                facilities@[i as int],
            ),
            None => find_facility(facilities@, id) is None,
        },
{
    let mut i: usize = 0;
    assert(facilities@.skip(0) =~= facilities@);
    while i < facilities.len()
        invariant
            i <= facilities@.len(),
            find_facility(facilities@, id) == find_facility(facilities@.skip(i as int), id),
        decreases facilities@.len() - i,
    {
        if facilities[i].id == id {
            return Some(i);
        }
        assert(facilities@.skip(i as int).drop_first() =~= facilities@.skip(i + 1));
        i = i + 1;
    }
    None
}

} // verus!
