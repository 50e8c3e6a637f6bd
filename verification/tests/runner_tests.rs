use elysia::runners::{LaunchError, Proton, Runner, Wine};
use elysia::settings::GlobalSettings;
use elysia::settings::InstalledGame;

fn sample_settings() -> GlobalSettings {
    GlobalSettings::default("/home/user/.local/share/elysia")
}

fn sample_game(biz: &str) -> InstalledGame {
    InstalledGame {
        id: "U5hbdsT9W7".to_string(),
        biz_name: biz.to_string(),
        install_path: "/path/to/Zenless Zone Zero".to_string(),
        executable_path: "ZenlessZoneZero.exe".to_string(),
        command_wrapper: None,
        command_arguments: Some("-windowed".to_string()),
        environment: vec![("DXVK_HUD".to_string(), "fps".to_string())],
        runner: Runner::Native,
        runtime_components: vec![],
    }
}

#[test]
fn wine_plan_namespaces_prefix_by_biz_name() {
    let settings = sample_settings();
    let game = sample_game("g1");
    let wine = Wine { version: "X".to_string() };
    let plan = wine.run_game(&game, &settings);
    assert!(plan.executable.ends_with("/components/wine/X/bin/wine"));
    assert_eq!(
        plan.executable,
        "/home/user/.local/share/elysia/components/wine/X/bin/wine"
    );
    assert_eq!(plan.environment.len(), 1);
    assert_eq!(plan.environment[0].0, "WINEPREFIX");
    assert!(plan.environment[0].1.ends_with("/wineprefixes/g1"));
    assert_eq!(
        plan.arguments,
        vec!["/path/to/Zenless Zone Zero/ZenlessZoneZero.exe".to_string()]
    );
}

#[test]
fn proton_without_helper_is_a_distinct_failure() {
    let settings = sample_settings();
    let game = sample_game("g1");
    let proton = Proton { version: "GE-Proton9-27".to_string() };
    let r = proton.run_game(&game, &settings, false);
    match r {
        Err(LaunchError::HelperNotInstalled { expected }) => {
            assert_eq!(
                expected,
                "/home/user/.local/share/elysia/components/umu-launcher/umu-run"
            );
        }
        Ok(_) => panic!("a Proton plan must not be produced without the helper"),
    }
}

#[test]
fn proton_plan_uses_helper_and_sets_both_variables() {
    let settings = sample_settings();
    let game = sample_game("nap_global");
    let proton = Proton { version: "GE-Proton9-27".to_string() };
    let plan = proton.run_game(&game, &settings, true).expect("helper present");
    assert_eq!(
        plan.executable,
        "/home/user/.local/share/elysia/components/umu-launcher/umu-run"
    );
    assert_eq!(plan.environment.len(), 2);
    assert_eq!(plan.environment[0].0, "PROTONPATH");
    assert_eq!(
        plan.environment[0].1,
        "/home/user/.local/share/elysia/components/proton/GE-Proton9-27"
    );
    assert_eq!(plan.environment[1].0, "PREFIX");
    assert_eq!(
        plan.environment[1].1,
        "/home/user/.local/share/elysia/wineprefixes/nap_global"
    );
    assert_eq!(
        plan.arguments,
        vec!["/path/to/Zenless Zone Zero/ZenlessZoneZero.exe".to_string()]
    );
}

#[test]
fn native_plan_is_the_game_verbatim() {
    let settings = sample_settings();
    let game = sample_game("g1");
    let plan = Runner::Native.run_game(&game, &settings, false).expect("native always plans");
    assert_eq!(plan.executable, "/path/to/Zenless Zone Zero/ZenlessZoneZero.exe");
    assert_eq!(plan.arguments, vec!["-windowed".to_string()]);
    assert_eq!(plan.environment, vec![("DXVK_HUD".to_string(), "fps".to_string())]);
}

#[test]
fn runner_dispatch_matches_each_strategy() {
    let settings = sample_settings();
    let game = sample_game("g1");
    let wine = Wine { version: "X".to_string() };
    let via_runner = Runner::Wine(wine.clone()).run_game(&game, &settings, false).unwrap();
    let direct = wine.run_game(&game, &settings);
    assert_eq!(via_runner, direct);
    let proton = Proton { version: "P".to_string() };
    let r = Runner::Proton(proton).run_game(&game, &settings, false);
    assert!(matches!(r, Err(LaunchError::HelperNotInstalled { .. })));
}
