use elysia::runners::{Proton, Runner, Wine};
use elysia::settings::{
    DirRole, DirectoryProbe, GlobalSettings, InstalledGame, LoadError, PathProbe,
    RuntimeComponent, SettingsError,
};

fn ok_probe() -> DirectoryProbe {
    let ok = PathProbe { persisted_ok: true, default_ok: true };
    DirectoryProbe { wineprefixes: ok, components: ok, temp: ok, cache: ok }
}

fn sample_game(id: &str, biz: &str, runner: Runner) -> (String, InstalledGame) {
    (
        id.to_string(),
        InstalledGame {
            id: id.to_string(),
            biz_name: biz.to_string(),
            install_path: "/games/somewhere".to_string(),
            executable_path: "Game.exe".to_string(),
            command_wrapper: Some("gamescope".to_string()),
            command_arguments: None,
            environment: vec![
                ("DXVK_HUD".to_string(), "fps".to_string()),
                ("ODD \"QUOTED\"".to_string(), "back\\slash\nnewline".to_string()),
            ],
            runner,
            runtime_components: vec![
                RuntimeComponent::Dxvk("2.7.1".to_string()),
                RuntimeComponent::Vkd3dProton("2.14".to_string()),
                RuntimeComponent::DxvkNvApi("0.9".to_string()),
            ],
        },
    )
}

#[test]
fn default_builds_paths_and_empty_catalog() {
    let s = GlobalSettings::default("/data");
    assert_eq!(s.data_path, "/data");
    assert_eq!(s.config_path, "/data/config.json");
    assert_eq!(s.wineprefixes_directory, "/data/wineprefixes");
    assert_eq!(s.components_directory, "/data/components");
    assert_eq!(s.temp_directory, "/data/temp");
    assert_eq!(s.cache_directory, "/data/cache");
    assert!(s.installed_games.is_empty());
}

#[test]
fn validate_keeps_usable_directories() {
    let mut s = GlobalSettings::default("/data");
    s.temp_directory = "/somewhere/else/tmp".to_string();
    let r = s.validate(&ok_probe());
    assert!(r.is_ok());
    assert_eq!(s.temp_directory, "/somewhere/else/tmp");
}

#[test]
fn validate_replaces_invalid_directory_with_default() {
    let mut s = GlobalSettings::default("/data");
    s.temp_directory = "/read/only/path".to_string();
    s.cache_directory = "/also/bad".to_string();
    let mut probe = ok_probe();
    probe.temp = PathProbe { persisted_ok: false, default_ok: true };
    probe.cache = PathProbe { persisted_ok: false, default_ok: true };
    let r = s.validate(&probe);
    assert!(r.is_ok());
    assert_eq!(s.temp_directory, "/data/temp");
    assert_eq!(s.cache_directory, "/data/cache");
    assert_eq!(s.wineprefixes_directory, "/data/wineprefixes");
}

#[test]
fn validate_without_usable_path_names_role_and_both_paths() {
    let mut s = GlobalSettings::default("/data");
    s.components_directory = "/mnt/gone".to_string();
    let mut probe = ok_probe();
    probe.components = PathProbe { persisted_ok: false, default_ok: false };
    let before = s.clone();
    let r = s.validate(&probe);
    match r {
        Err(SettingsError::DirectoryUnavailable { role, persisted, fallback }) => {
            assert_eq!(role, DirRole::Components);
            assert_eq!(persisted, "/mnt/gone");
            assert_eq!(fallback, "/data/components");
        }
        Ok(()) => panic!("validation must fail when no path is usable"),
    }
    assert_eq!(s, before);
}

#[test]
fn load_missing_config_is_not_found() {
    let r = GlobalSettings::load("/data", None);
    assert_eq!(r, Err(LoadError::NotFound));
}

#[test]
fn load_garbage_is_parse_error() {
    let r = GlobalSettings::load("/data", Some("this is not a config".to_string()));
    assert_eq!(r, Err(LoadError::ParseError));
    let r = GlobalSettings::load("/data", Some(String::new()));
    assert_eq!(r, Err(LoadError::ParseError));
}

#[test]
fn load_rejects_trailing_garbage() {
    let s = GlobalSettings::default("/data");
    let mut text = s.save();
    text.push(' ');
    assert_eq!(GlobalSettings::load("/data", Some(text)), Err(LoadError::ParseError));
}

#[test]
fn save_of_empty_catalog_is_exact() {
    let s = GlobalSettings::default("/data");
    let expected = "{\"wineprefixes_directory\":\"/data/wineprefixes\",\"components_directory\":\"/data/components\",\"temp_directory\":\"/data/temp\",\"cache_directory\":\"/data/cache\",\"installed_games\":{}}";
    assert_eq!(s.save(), expected);
}

#[test]
fn missing_catalog_member_falls_back_to_empty() {
    let text = "{\"wineprefixes_directory\":\"/data/wineprefixes\",\"components_directory\":\"/data/components\",\"temp_directory\":\"/data/temp\",\"cache_directory\":\"/data/cache\"}";
    let loaded = GlobalSettings::load("/data", Some(text.to_string())).expect("dirs alone load");
    assert!(loaded.installed_games.is_empty());
    assert_eq!(loaded, GlobalSettings::default("/data"));
}

#[test]
fn save_then_load_round_trips_the_catalog() {
    let mut s = GlobalSettings::default("/data");
    s.installed_games.push(sample_game(
        "U5hbdsT9W7",
        "nap_global",
        Runner::Wine(Wine { version: "Spritz-Wine-TkG-10.15-3".to_string() }),
    ));
    s.installed_games.push(sample_game("other", "hk4e_global", Runner::Native));
    s.installed_games.push(sample_game(
        "third",
        "bh3_global",
        Runner::Proton(Proton { version: "GE-Proton9-27".to_string() }),
    ));
    let text = s.save();
    let loaded = GlobalSettings::load("/data", Some(text)).expect("round trip must load");
    assert_eq!(loaded, s);
}

#[test]
fn save_then_load_round_trips_either_insertion_order() {
    let g1 = sample_game("a-game", "a_biz", Runner::Native);
    let g2 = sample_game(
        "b-game",
        "b_biz",
        Runner::Wine(Wine { version: "X".to_string() }),
    );
    let mut first = GlobalSettings::default("/data");
    first.installed_games.push(g1.clone());
    first.installed_games.push(g2.clone());
    let mut second = GlobalSettings::default("/data");
    second.installed_games.push(g2);
    second.installed_games.push(g1);
    let first_loaded = GlobalSettings::load("/data", Some(first.save())).unwrap();
    let second_loaded = GlobalSettings::load("/data", Some(second.save())).unwrap();
    for (id, game) in &first_loaded.installed_games {
        let found = second_loaded
            .installed_games
            .iter()
            .find(|(other, _)| other == id)
            .expect("every id survives in either order");
        assert_eq!(&found.1, game);
    }
    assert_eq!(first_loaded.installed_games.len(), second_loaded.installed_games.len());
}

#[test]
fn save_output_is_real_json() {
    let mut s = GlobalSettings::default("/data");
    let (_, mut game) = sample_game("q", "biz\"name", Runner::Native);
    game.id = "odd id \\ with \"quotes\" and \u{1} control".to_string();
    s.installed_games.push((game.id.clone(), game.clone()));
    let text = s.save();
    let v: serde_json::Value = serde_json::from_str(&text).expect("the config is JSON");
    assert_eq!(v["cache_directory"].as_str(), Some("/data/cache"));
    let entry = &v["installed_games"][&game.id];
    assert_eq!(entry["id"].as_str(), Some(game.id.as_str()));
    assert_eq!(entry["biz_name"].as_str(), Some("biz\"name"));
    assert_eq!(entry["command_wrapper"].as_str(), Some("gamescope"));
    assert!(entry["command_arguments"].is_null());
    assert_eq!(entry["runner"].as_str(), Some("Native"));
    assert_eq!(entry["runtime_components"][0]["Dxvk"].as_str(), Some("2.7.1"));
}

#[test]
fn load_accepts_a_handwritten_config() {
    let text = "{\"wineprefixes_directory\":\"/data/wineprefixes\",\"components_directory\":\"/data/components\",\"temp_directory\":\"/data/temp\",\"cache_directory\":\"/data/cache\",\"installed_games\":{\"U5hbdsT9W7\":{\"id\":\"U5hbdsT9W7\",\"biz_name\":\"nap_global\",\"install_path\":\"/path/to/Zenless Zone Zero\",\"executable_path\":\"ZenlessZoneZero.exe\",\"command_wrapper\":null,\"command_arguments\":null,\"environment\":{},\"runner\":{\"Wine\":{\"version\":\"Spritz-Wine-TkG-10.15-3\"}},\"runtime_components\":[{\"Dxvk\":\"2.7.1\"}]}}}";
    let loaded = GlobalSettings::load("/data", Some(text.to_string())).expect("canonical config");
    assert_eq!(loaded.installed_games.len(), 1);
    let (id, game) = &loaded.installed_games[0];
    assert_eq!(id, "U5hbdsT9W7");
    assert_eq!(game.biz_name, "nap_global");
    assert_eq!(game.runner, Runner::Wine(Wine { version: "Spritz-Wine-TkG-10.15-3".to_string() }));
    assert_eq!(game.environment, vec![]);
    assert_eq!(game.runtime_components, vec![RuntimeComponent::Dxvk("2.7.1".to_string())]);
}

#[test]
fn duplicate_game_ids_are_a_parse_error() {
    let mut s = GlobalSettings::default("/data");
    s.installed_games.push(sample_game("same", "a", Runner::Native));
    s.installed_games.push(sample_game("same", "b", Runner::Native));
    let text = s.save();
    assert_eq!(GlobalSettings::load("/data", Some(text)), Err(LoadError::ParseError));
}

#[test]
fn duplicate_environment_keys_are_a_parse_error() {
    let mut s = GlobalSettings::default("/data");
    let (id, mut game) = sample_game("g", "biz", Runner::Native);
    game.environment = vec![
        ("SAME".to_string(), "a".to_string()),
        ("SAME".to_string(), "b".to_string()),
    ];
    s.installed_games.push((id, game));
    let text = s.save();
    assert_eq!(GlobalSettings::load("/data", Some(text)), Err(LoadError::ParseError));
}

#[test]
fn round_trip_survives_escaping_hazards() {
    let mut s = GlobalSettings::default("/data");
    let (_, mut game) = sample_game("q", "b", Runner::Native);
    game.id = "quote\" backslash\\ slash/ tab\t nul\u{0} bell\u{7}".to_string();
    game.biz_name = "newline\n cr\r".to_string();
    s.installed_games.push((game.id.clone(), game));
    let loaded = GlobalSettings::load("/data", Some(s.save())).expect("escaped text must load");
    assert_eq!(loaded, s);
}
