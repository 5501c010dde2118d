use tree_loan::error::ContractError;
use tree_loan::helpers::execute_helper;
use tree_loan::reforestation_manager::{
    add_reforestation_area, execute, instantiate, register_planted_tree, ExecuteMsg,
};

#[test]
fn areas_are_numbered_from_one() {
    let mut state = instantiate();
    let res = add_reforestation_area(&mut state, "north".to_string());
    assert_eq!(res.attributes[1].value, "north");
    add_reforestation_area(&mut state, "south".to_string());
    assert_eq!(state.reforestation_areas[0].id, 1);
    assert_eq!(state.reforestation_areas[1].id, 2);
    assert_eq!(state.reforestation_areas[1].location, "south");
    assert_eq!(state.reforestation_areas[1].trees_planted, 0);
}

#[test]
fn planting_counts_area_and_total() {
    let mut state = instantiate();
    add_reforestation_area(&mut state, "north".to_string());
    add_reforestation_area(&mut state, "south".to_string());
    register_planted_tree(&mut state, 2).unwrap();
    let res = register_planted_tree(&mut state, 2).unwrap();
    assert_eq!(res.attributes[0].value, "register_planted_tree");
    assert_eq!(res.attributes[1].value, "2");
    assert_eq!(res.attributes[2].value, "2");
    register_planted_tree(&mut state, 1).unwrap();
    assert_eq!(state.reforestation_areas[0].trees_planted, 1);
    assert_eq!(state.reforestation_areas[1].trees_planted, 2);
    assert_eq!(state.total_trees_planted, 3);
}

#[test]
fn unknown_area_is_refused() {
    let mut state = instantiate();
    add_reforestation_area(&mut state, "north".to_string());
    let res = register_planted_tree(&mut state, 7);
    assert_eq!(res.unwrap_err(), ContractError::AreaNotFound);
    assert_eq!(state.total_trees_planted, 0);
    let res = execute(&mut state, ExecuteMsg::RegisterPlantedTree { area_id: 0 });
    assert_eq!(res.unwrap_err(), ContractError::AreaNotFound);
}

#[test]
fn execute_dispatches() {
    let mut state = instantiate();
    execute(&mut state, ExecuteMsg::AddReforestationArea { location: "east".to_string() }).unwrap();
    let res = execute(&mut state, ExecuteMsg::RegisterPlantedTree { area_id: 1 }).unwrap();
    assert_eq!(res.attributes[2].value, "1");
    assert_eq!(state.total_trees_planted, 1);
}

#[test]
fn helper_reports_itself() {
    let res = execute_helper().unwrap();
    assert_eq!(res.attributes.len(), 1);
    assert_eq!(res.attributes[0].key, "action");
    assert_eq!(res.attributes[0].value, "helper");
    assert!(res.messages.is_empty());
}

#[test]
fn unknown_area_refused_at_full_total() {
    let mut state = instantiate();
    add_reforestation_area(&mut state, "north".to_string());
    state.total_trees_planted = u32::MAX;
    let res = execute(&mut state, ExecuteMsg::RegisterPlantedTree { area_id: 9 });
    assert_eq!(res.unwrap_err(), ContractError::AreaNotFound);
    let res = execute(&mut state, ExecuteMsg::AddReforestationArea { location: "west".to_string() }).unwrap();
    assert_eq!(res.attributes[0].value, "add_reforestation_area");
    assert_eq!(res.attributes[1].value, "west");
    assert_eq!(state.reforestation_areas[1].id, 2);
    assert_eq!(state.total_trees_planted, u32::MAX);
}
