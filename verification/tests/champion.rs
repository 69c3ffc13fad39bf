use league_config_manager::champion::get_champion_id_from_name;
use league_config_manager::champion::get_champion_name_from_id;
use league_config_manager::champion::get_champion_name_list;

#[test]
fn from_id() {
    let name = get_champion_name_from_id(523).unwrap();
    assert_eq!(name, "Aphelios");
}

#[test]
fn from_name() {
    let id = get_champion_id_from_name("Aphelios").unwrap();
    assert_eq!(id, 523);
}

#[test]
fn unknown_id_has_no_name() {
    assert_eq!(get_champion_name_from_id(0), None);
    assert_eq!(get_champion_name_from_id(999_999), None);
}

#[test]
fn unknown_name_has_no_id() {
    assert_eq!(get_champion_id_from_name("Aphelio"), None);
    assert_eq!(get_champion_id_from_name("aphelios"), None);
    assert_eq!(get_champion_id_from_name(""), None);
    assert_eq!(get_champion_id_from_name("Default"), None);
    assert_eq!(get_champion_id_from_name("Disabled"), None);
}

#[test]
fn every_listed_name_leads_back_to_itself() {
    let names = get_champion_name_list();
    assert!(names.len() > 100);
    for name in names {
        let id = get_champion_id_from_name(name).unwrap();
        assert_ne!(id, 0);
        assert_eq!(get_champion_name_from_id(id), Some(name));
    }
}

#[test]
fn name_list_is_in_table_order() {
    let names = get_champion_name_list();
    assert_eq!(names[0], "Aatrox");
    assert_eq!(names[9], "Aphelios");
    assert_eq!(names[names.len() - 1], "Zyra");
}
