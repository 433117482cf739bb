use kitsune_transport::cell::{format_cell_id, CellHandle, CellId};
use kitsune_transport::database_path::DatabasePath;
use std::path::Path;

#[test]
fn cell_id_gives_its_parts_back() {
    let id = CellId::from((String::from("dna"), String::from("agent")));
    assert_eq!(id.dna_hash(), "dna");
    assert_eq!(id.agent_pubkey(), "agent");
}

#[test]
fn cell_ids_of_equal_pairs_are_equal() {
    assert_eq!(CellId::from((1u8, 2u8)), CellId::from((1u8, 2u8)));
    assert_ne!(CellId::from((1u8, 2u8)), CellId::from((2u8, 1u8)));
}

#[test]
fn cell_id_text_joins_the_parts_with_hyphens() {
    assert_eq!(format_cell_id("uhC0kabc", "uhCAkxyz"), "cell-uhC0kabc-uhCAkxyz");
    assert_eq!(format_cell_id("", ""), "cell--");
}

#[test]
fn cell_handle_is_its_name() {
    let handle = CellHandle::from("main");
    assert_eq!(handle.to_text(), "main");
    assert_eq!(handle, CellHandle::from(String::from("main")));
    assert_eq!(handle.into_string(), "main");
}

#[test]
fn database_path_of_a_pair_is_the_root() {
    let path = DatabasePath::from((String::from("QmAddress"), String::from("HcAgent")));
    let borrowed: &Path = path.as_ref();
    assert_eq!(borrowed, Path::new(""));
    assert_eq!(borrowed.components().count(), 0);
}

#[test]
fn database_path_clones_to_the_same_path() {
    let path = DatabasePath::from((String::from("QmAddress"), String::from("HcAgent")));
    let copy = path.clone();
    let left: &Path = path.as_ref();
    let right: &Path = copy.as_ref();
    assert_eq!(left, right);
}
