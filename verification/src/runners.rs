//! Launch strategies. A runner turns an installed-game record and the
//! current settings into a concrete launch plan: executable, arguments and
//! environment. No process is spawned here; the plan is handed to a
//! process-spawning collaborator.
use vstd::prelude::*;

use crate::paths::{join_path, lemma_join_suffix, spec_ends_with, spec_join};
use crate::settings::{
    spec_default_dir, DirRole, GameView, GlobalSettings, InstalledGame, SettingsView,
};
use crate::umu::{spec_umu_run, umu_run_path};

verus! {

/// A launch strategy for an installed game.
#[derive(Debug, Clone, PartialEq)]
pub enum Runner {
    Native,
    Wine(Wine),
    Proton(Proton),
}

#[derive(Debug, Clone, PartialEq)]
pub struct Wine {
    pub version: String,
}

#[derive(Debug, Clone, PartialEq)]
pub struct Proton {
    pub version: String,
}

pub enum RunnerView {
    Native,
    Wine(Seq<char>),
    Proton(Seq<char>),
}

impl View for Runner {
    type V = RunnerView;

    open spec fn view(&self) -> RunnerView {
        match self {
            Runner::Native => RunnerView::Native,
            Runner::Wine(w) => RunnerView::Wine(w.version@),
            Runner::Proton(p) => RunnerView::Proton(p.version@),
        }
    }
}

/// A resolved process invocation: what to execute, with which arguments, and
/// which environment variables to set on top of the ambient environment.
#[derive(Debug, Clone, PartialEq)]
pub struct LaunchPlan {
    pub executable: String,
    pub arguments: Vec<String>,
    pub environment: Vec<(String, String)>,
}

pub struct PlanView {
    pub executable: Seq<char>,
    pub arguments: Seq<Seq<char>>,
    pub environment: Seq<(Seq<char>, Seq<char>)>,
}

impl View for LaunchPlan {
    type V = PlanView;

    open spec fn view(&self) -> PlanView {
        PlanView {
            executable: self.executable@,
            arguments: self.arguments@.map_values(|a: String| a@),
            environment: self.environment@.map_values(|e: (String, String)| (e.0@, e.1@)),
        }
    }
}

/// Computing a plan failed before anything was run.
#[derive(Debug, Clone, PartialEq)]
pub enum LaunchError {
    /// The Proton strategy needs the umu helper binary, and it is not
    /// installed at its well-known path (carried for the diagnostic).
    HelperNotInstalled { expected: String },
}

/// The game's launch target: its executable path joined onto its
/// installation path.
pub open spec fn spec_game_target(g: GameView) -> Seq<char> {
    spec_join(g.install_path, g.executable_path)
}

/// The Native plan: the game's target and free-form arguments verbatim, the
/// game's own extra environment, no translation layer.
pub open spec fn spec_native_plan(g: GameView) -> PlanView {
    PlanView {
        executable: spec_game_target(g),
        arguments: match g.command_arguments {
            Some(a) => seq![a],
            None => Seq::empty(),
        },
        environment: g.environment,
    }
}

/// The Wine plan: the versioned wine binary out of the components
/// directory, `WINEPREFIX` namespaced by the game's `biz_name` under the
/// wineprefixes directory, and the game target as the sole argument.
pub open spec fn spec_wine_plan(version: Seq<char>, g: GameView, s: SettingsView) -> PlanView {
    PlanView {
        executable: spec_join(
            spec_join(spec_join(s.components_directory, "wine"@), version),
            "bin/wine"@,
        ),
        arguments: seq![spec_game_target(g)],
        environment: seq![
            ("WINEPREFIX"@, spec_join(s.wineprefixes_directory, g.biz_name)),
        ],
    }
}

/// The Proton plan: the umu helper binary as the executable, `PROTONPATH`
/// pointing at the versioned proton directory, `PREFIX` namespaced by
/// `biz_name` as for Wine, and the game target as the sole argument.
pub open spec fn spec_proton_plan(version: Seq<char>, g: GameView, s: SettingsView) -> PlanView {
    PlanView {
        executable: spec_umu_run(s.components_directory),
        arguments: seq![spec_game_target(g)],
        environment: seq![
            ("PROTONPATH"@, spec_join(spec_join(s.components_directory, "proton"@), version)),
            ("PREFIX"@, spec_join(s.wineprefixes_directory, g.biz_name)),
        ],
    }
}

fn clone_string_pairs(v: &Vec<(String, String)>) -> (r: Vec<(String, String)>)
    ensures
        r@.len() == v@.len(),
        forall|j: int|
            0 <= j < v@.len() ==> r@[j].0@ == v@[j].0@ && r@[j].1@ == v@[j].1@,
{
    let mut r: Vec<(String, String)> = Vec::new();
    let n = v.len();
    for i in 0..n
        invariant
            n == v@.len(),
            r@.len() == i,
            forall|j: int| 0 <= j < i ==> r@[j].0@ == v@[j].0@ && r@[j].1@ == v@[j].1@,
    {
        let key = v[i].0.clone();
        let val = v[i].1.clone();
        r.push((key, val));
    }
    r
}

pub fn game_target(game: &InstalledGame) -> (r: String)
    ensures
        r@ == spec_game_target(game@),
{
    join_path(game.install_path.as_str(), game.executable_path.as_str())
}

impl Wine {
    /// Compute the Wine launch plan for a game under these settings.
    pub fn run_game(&self, game: &InstalledGame, settings: &GlobalSettings) -> (plan: LaunchPlan)
        ensures
            plan@ == spec_wine_plan(self.version@, game@, settings@),
    {
        let wine_root = join_path(settings.components_directory.as_str(), "wine");
        let versioned = join_path(wine_root.as_str(), self.version.as_str());
        let exe = join_path(versioned.as_str(), "bin/wine");
        let prefix = join_path(settings.wineprefixes_directory.as_str(), game.biz_name.as_str());
        let mut arguments: Vec<String> = Vec::new();
        arguments.push(game_target(game));
        let mut environment: Vec<(String, String)> = Vec::new();
        environment.push((String::from_str("WINEPREFIX"), prefix));
        let plan = LaunchPlan { executable: exe, arguments, environment };
        proof {
            assert(plan@.arguments =~= spec_wine_plan(self.version@, game@, settings@).arguments);
            assert(plan@.environment =~= spec_wine_plan(
                self.version@,
                game@,
                settings@,
            ).environment);
            assert(plan@ =~= spec_wine_plan(self.version@, game@, settings@));
        }
        plan
    }
}

impl Proton {
    /// Compute the Proton launch plan for a game under these settings.
    /// `helper_present` reports whether the umu helper binary exists at its
    /// well-known path; without it no plan is produced.
    pub fn run_game(
        &self,
        game: &InstalledGame,
        settings: &GlobalSettings,
        helper_present: bool,
    ) -> (r: Result<LaunchPlan, LaunchError>)
        ensures
            match r {
                Ok(plan) => helper_present && plan@ == spec_proton_plan(
                    self.version@,
                    game@,
                    settings@,
                ),
                Err(e) => !helper_present && match e {
                    LaunchError::HelperNotInstalled { expected } => expected@ == spec_umu_run(
                        settings@.components_directory,
                    ),
                },
            },
    {
        let umu_run = umu_run_path(settings.components_directory.as_str());
        if !helper_present {
            return Err(LaunchError::HelperNotInstalled { expected: umu_run });
        }
        let proton_root = join_path(settings.components_directory.as_str(), "proton");
        let proton_path = join_path(proton_root.as_str(), self.version.as_str());
        let prefix = join_path(settings.wineprefixes_directory.as_str(), game.biz_name.as_str());
        let mut arguments: Vec<String> = Vec::new();
        arguments.push(game_target(game));
        let mut environment: Vec<(String, String)> = Vec::new();
        environment.push((String::from_str("PROTONPATH"), proton_path));
        environment.push((String::from_str("PREFIX"), prefix));
        let plan = LaunchPlan { executable: umu_run, arguments, environment };
        proof {
            assert(plan@.arguments =~= spec_proton_plan(self.version@, game@, settings@).arguments);
            assert(plan@.environment =~= spec_proton_plan(
                self.version@,
                game@,
                settings@,
            ).environment);
            assert(plan@ =~= spec_proton_plan(self.version@, game@, settings@));
        }
        Ok(plan)
    }
}

impl Runner {
    /// Compute the launch plan for a game under this strategy.
    pub fn run_game(
        &self,
        game: &InstalledGame,
        settings: &GlobalSettings,
        helper_present: bool,
    ) -> (r: Result<LaunchPlan, LaunchError>)
        ensures
            match self {
                Runner::Native => r matches Ok(plan) && plan@ == spec_native_plan(game@),
                Runner::Wine(w) => r matches Ok(plan) && plan@ == spec_wine_plan(
                    w.version@,
                    game@,
                    settings@,
                ),
                Runner::Proton(p) => match r {
                    Ok(plan) => helper_present && plan@ == spec_proton_plan(
                        p.version@,
                        game@,
                        settings@,
                    ),
                    Err(e) => !helper_present && match e {
                        LaunchError::HelperNotInstalled { expected } => expected@ == spec_umu_run(
                            settings@.components_directory,
                        ),
                    },
                },
            },
    {
        match self {
            Runner::Native => {
                let mut arguments: Vec<String> = Vec::new();
                match &game.command_arguments {
                    Some(a) => arguments.push(a.clone()),
                    None => (),
                }
                let plan = LaunchPlan {
                    executable: game_target(game),
                    arguments,
                    environment: clone_string_pairs(&game.environment),
                };
                proof {
                    assert(plan@.arguments =~= spec_native_plan(game@).arguments);
                    assert(plan@.environment =~= spec_native_plan(game@).environment);
                    assert(plan@ =~= spec_native_plan(game@));
                }
                Ok(plan)
            },
            Runner::Wine(w) => Ok(w.run_game(game, settings)),
            Runner::Proton(p) => p.run_game(game, settings, helper_present),
        }
    }
}

/// Law: with the wineprefixes and components directories at their defaults
/// under any base data directory, a Wine plan's `WINEPREFIX` value ends in
/// `/wineprefixes/<biz_name>` and its executable ends in
/// `/components/wine/<version>/bin/wine`. A version that is empty or ends in
/// a separator is left out: its joined path has no `/<version>/` segment of
/// that literal shape.
pub proof fn lemma_wine_plan_suffixes(
    base: Seq<char>,
    version: Seq<char>,
    g: GameView,
    s: SettingsView,
)
    requires
        s.wineprefixes_directory == spec_default_dir(base, DirRole::Wineprefixes),
        s.components_directory == spec_default_dir(base, DirRole::Components),
        version.len() > 0,
        version.last() != '/',
    ensures
        spec_ends_with(
            spec_wine_plan(version, g, s).environment[0].1,
            seq!['/'] + "wineprefixes"@ + seq!['/'] + g.biz_name,
        ),
        spec_ends_with(
            spec_wine_plan(version, g, s).executable,
            seq!['/'] + "components"@ + seq!['/'] + "wine"@ + seq!['/'] + version + seq!['/']
                + "bin/wine"@,
        ),
{
    reveal_strlit("wineprefixes");
    reveal_strlit("components");
    reveal_strlit("wine");
    reveal_strlit("bin/wine");
    let w = s.wineprefixes_directory;
    lemma_join_suffix(base, "wineprefixes"@);
    assert(w.last() == 's');
    let p = spec_join(w, g.biz_name);
    assert(p == w + seq!['/'] + g.biz_name);
    let wx = w.take(w.len() - 13);
    assert(w =~= wx + (seq!['/'] + "wineprefixes"@));
    let ptail = seq!['/'] + "wineprefixes"@ + seq!['/'] + g.biz_name;
    assert(p =~= wx + ptail);
    assert(p.skip(p.len() - ptail.len()) =~= ptail);
    assert(spec_wine_plan(version, g, s).environment[0].1 == p);
    let c = s.components_directory;
    lemma_join_suffix(base, "components"@);
    assert(c.last() == 's');
    let j1 = spec_join(c, "wine"@);
    assert(j1 == c + seq!['/'] + "wine"@);
    assert(j1.last() == 'e');
    let j2 = spec_join(j1, version);
    assert(j2 == j1 + seq!['/'] + version);
    assert(j2.last() == version.last());
    let e = spec_join(j2, "bin/wine"@);
    assert(e == j2 + seq!['/'] + "bin/wine"@);
    let cx = c.take(c.len() - 11);
    assert(c =~= cx + (seq!['/'] + "components"@));
    let etail = seq!['/'] + "components"@ + seq!['/'] + "wine"@ + seq!['/'] + version + seq!['/']
        + "bin/wine"@;
    assert(e =~= cx + etail);
    assert(e.skip(e.len() - etail.len()) =~= etail);
    assert(spec_wine_plan(version, g, s).executable == e);
}

} // verus!
