//! A register of reforestation areas and of the trees planted in each.
use vstd::prelude::*;

use crate::decimal::{decimal, decimal_string};
use crate::error::ContractError;
use crate::response::Response;

verus! {

/// One area, numbered from 1 in the order of registration.
#[derive(Clone, Debug)]
pub struct ReforestationArea {
    pub id: u32,
    pub location: String,
    pub trees_planted: u32,
}

/// The requests that the register is addressed with.
#[derive(Clone, Debug)]
pub enum ExecuteMsg {
    RegisterPlantedTree { area_id: u32 },
    AddReforestationArea { location: String },
}

/// The areas and the count of all trees planted in them.
#[derive(Clone, Debug)]
pub struct State {
    pub total_trees_planted: u32,
    pub reforestation_areas: Vec<ReforestationArea>,
}

impl State {
    /// No area counts more trees than the total.
    pub open spec fn wf(self) -> bool {
        forall|i: int|
            0 <= i < self.reforestation_areas@.len()
                ==> #[trigger] self.reforestation_areas@[i].trees_planted <= self.total_trees_planted
    }
}

/// The index of the first area of `areas` numbered `id`, if any.
pub open spec fn first_area(areas: Seq<ReforestationArea>, id: u32) -> Option<int> {
    if exists|i: int| 0 <= i < areas.len() && #[trigger] areas[i].id == id {
        let i = choose|i: int|
            0 <= i < areas.len() && #[trigger] areas[i].id == id && forall|j: int|
                0 <= j < i ==> #[trigger] areas[j].id != id;
        Some(i)
    } else {
        None
    }
}

proof fn lemma_first_match_exists(areas: Seq<ReforestationArea>, id: u32)
    requires
        exists|i: int| 0 <= i < areas.len() && #[trigger] areas[i].id == id,
    ensures
        exists|i: int|
            0 <= i < areas.len() && #[trigger] areas[i].id == id && forall|j: int|
                0 <= j < i ==> #[trigger] areas[j].id != id,
    decreases areas.len(),
{
    let front = areas.drop_last();
    if exists|i: int| 0 <= i < front.len() && #[trigger] front[i].id == id {
        lemma_first_match_exists(front, id);
        let k = choose|k: int|
            0 <= k < front.len() && #[trigger] front[k].id == id && forall|j: int|
                0 <= j < k ==> #[trigger] front[j].id != id;
        assert(areas[k].id == id);
        assert forall|j: int| 0 <= j < k implies #[trigger] areas[j].id != id by {
            assert(front[j] == areas[j]);
        }
    } else {
        let last = areas.len() - 1;
        assert forall|j: int| 0 <= j < last implies #[trigger] areas[j].id != id by {
            assert(front[j] == areas[j]);
        }
        assert(areas[last].id == id);
    }
}

/// `first_area` finds an area exactly when some area has the id, and then
/// the index it gives is in range, has that id, and no earlier area has it.
pub proof fn lemma_first_area(areas: Seq<ReforestationArea>, id: u32)
    ensures
        first_area(areas, id) is Some <==> exists|i: int|
            0 <= i < areas.len() && #[trigger] areas[i].id == id,
        first_area(areas, id) matches Some(i) ==> {
            &&& 0 <= i < areas.len()
            &&& areas[i].id == id
            &&& forall|j: int| 0 <= j < i ==> #[trigger] areas[j].id != id
        },
{
    if exists|i: int| 0 <= i < areas.len() && #[trigger] areas[i].id == id {
        lemma_first_match_exists(areas, id);
    }
}

/// The register at deployment: no areas, no trees.
pub fn instantiate() -> (r: State)
    ensures
        r.total_trees_planted == 0,
        r.reforestation_areas@.len() == 0,
        r.wf(),
{
    State { total_trees_planted: 0, reforestation_areas: Vec::new() }
}

/// Serves one request, with the result and the effect of the operation that
/// the request names.
pub fn execute(state: &mut State, msg: ExecuteMsg) -> (r: Result<Response, ContractError>)
    requires
        match msg {
            ExecuteMsg::RegisterPlantedTree { area_id } => can_count(*old(state), area_id),
            ExecuteMsg::AddReforestationArea { location } => old(state).reforestation_areas@.len()
                < u32::MAX,
        },
    ensures
        match msg {
            ExecuteMsg::RegisterPlantedTree { area_id } => registered(
                *old(state),
                *final(state),
                area_id,
                r,
            ),
            ExecuteMsg::AddReforestationArea { location } => r is Ok && added(
                *old(state),
                *final(state),
                location@,
                r->Ok_0,
            ),
        },
{
    match msg {
        ExecuteMsg::RegisterPlantedTree { area_id } => register_planted_tree(state, area_id),
        ExecuteMsg::AddReforestationArea { location } => Ok(add_reforestation_area(state, location)),
    }
}

/// Counting one more tree in the first area numbered `area_id`, if any, fits
/// in a `u32` both there and in the total.
pub open spec fn can_count(s: State, area_id: u32) -> bool {
    first_area(s.reforestation_areas@, area_id) matches Some(i) ==> {
        &&& s.total_trees_planted < u32::MAX
        &&& s.reforestation_areas@[i].trees_planted < u32::MAX
    }
}

/// `post` and `r` are what registering a tree in area `area_id` makes of `pre`.
pub open spec fn registered(pre: State, post: State, area_id: u32, r: Result<Response, ContractError>) -> bool {
    &&& pre.wf() ==> post.wf()
    &&& first_area(pre.reforestation_areas@, area_id) is None ==> r == Err::<Response, ContractError>(
        ContractError::AreaNotFound,
    ) && post == pre
    &&& first_area(pre.reforestation_areas@, area_id) matches Some(i) ==> {
        let old_area = pre.reforestation_areas@[i];
        &&& r is Ok
        &&& post.total_trees_planted == pre.total_trees_planted + 1
        &&& post.reforestation_areas@ == pre.reforestation_areas@.update(
            i,
            (ReforestationArea { trees_planted: (old_area.trees_planted + 1) as u32, ..old_area }),
        )
        &&& r->Ok_0.attrs() == seq![
            ("action"@, "register_planted_tree"@),
            ("area_id"@, decimal(area_id as nat)),
            ("total_trees_planted"@, decimal(post.total_trees_planted as nat)),
        ]
        &&& r->Ok_0.transfers().len() == 0
    }
}

/// `post` and `r` are what registering an area at `location` makes of `pre`.
pub open spec fn added(pre: State, post: State, location: Seq<char>, r: Response) -> bool {
    &&& pre.wf() ==> post.wf()
    &&& post.total_trees_planted == pre.total_trees_planted
    &&& post.reforestation_areas@.len() == pre.reforestation_areas@.len() + 1
    &&& post.reforestation_areas@.drop_last() == pre.reforestation_areas@
    &&& post.reforestation_areas@.last().id == (pre.reforestation_areas@.len() + 1) as u32
    &&& post.reforestation_areas@.last().location@ == location
    &&& post.reforestation_areas@.last().trees_planted == 0
    &&& r.attrs() == seq![("action"@, "add_reforestation_area"@), ("location"@, location)]
    &&& r.transfers().len() == 0
}

/// Counts one more tree in the first area numbered `area_id`, and in the total.
///
/// Refused with `AreaNotFound` where no area has that number; a refusal
/// leaves the state as it was.
pub fn register_planted_tree(state: &mut State, area_id: u32) -> (r: Result<Response, ContractError>)
    requires
        can_count(*old(state), area_id),
    ensures
        registered(*old(state), *final(state), area_id, r),
{
    let ghost areas = state.reforestation_areas@;
    let mut i: usize = 0;
    while i < state.reforestation_areas.len()
        invariant
            0 <= i <= state.reforestation_areas.len(),
            state.reforestation_areas@ == areas,
            forall|j: int| 0 <= j < i ==> #[trigger] areas[j].id != area_id,
        ensures
            0 <= i <= state.reforestation_areas.len(),
            state.reforestation_areas@ == areas,
            forall|j: int| 0 <= j < i ==> #[trigger] areas[j].id != area_id,
            i < state.reforestation_areas.len() ==> areas[i as int].id == area_id,
        decreases state.reforestation_areas.len() - i,
    {
        if state.reforestation_areas[i].id == area_id {
            break;
        }
        i = i + 1;
    }
    if i == state.reforestation_areas.len() {
        assert(first_area(areas, area_id) is None);
        return Err(ContractError::AreaNotFound);
    }
    proof {
        let k = first_area(areas, area_id)->Some_0;
        assert(areas[i as int].id == area_id);
        assert(k == i as int) by {
            if k < i as int {
                assert(areas[k].id != area_id);
            }
            if k > i as int {
                assert(areas[i as int].id != area_id);
            }
        }
    }
    let old_area = &state.reforestation_areas[i];
    let area = ReforestationArea {
        id: old_area.id,
        location: old_area.location.clone(),
        trees_planted: old_area.trees_planted + 1,
    };
    state.reforestation_areas.set(i, area);
    state.total_trees_planted = state.total_trees_planted + 1;
    let res = Response::new().add_attribute("action", "register_planted_tree".to_string()).add_attribute(
        "area_id",
        decimal_string(area_id as u128),
    ).add_attribute("total_trees_planted", decimal_string(state.total_trees_planted as u128));
    assert(state.reforestation_areas@ =~= areas.update(
        i as int,
        ReforestationArea { trees_planted: (areas[i as int].trees_planted + 1) as u32, ..areas[i as int] },
    ));
    assert(res.attrs() =~= seq![
        ("action"@, "register_planted_tree"@),
        ("area_id"@, decimal(area_id as nat)),
        ("total_trees_planted"@, decimal(state.total_trees_planted as nat)),
    ]);
    Ok(res)
}

/// Registers a new area at `location`, numbered one past the areas so far
/// with no trees.
pub fn add_reforestation_area(state: &mut State, location: String) -> (r: Response)
    requires
        old(state).reforestation_areas@.len() < u32::MAX,
    ensures
        added(*old(state), *final(state), location@, r),
{
    let shown = location.clone();
    let new_area = ReforestationArea {
        id: (state.reforestation_areas.len() + 1) as u32,
        location,
        trees_planted: 0,
    };
    let ghost before = state.reforestation_areas@;
    state.reforestation_areas.push(new_area);
    assert(state.reforestation_areas@.drop_last() =~= before);
    let res = Response::new().add_attribute("action", "add_reforestation_area".to_string()).add_attribute(
        "location",
        shown,
    );
    assert(res.attrs() =~= seq![("action"@, "add_reforestation_area"@), ("location"@, location@)]);
    res
}

} // verus!
