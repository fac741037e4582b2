use wasm_build_support::error::{Error, PromptFailure};
use wasm_build_support::install::{
    install, install_if_required, Confirmation, InstallAnswer, InstallEffect,
    InstallObservations, InstallProgress, WEBPACK_INSTALL_PROMPT, YARN_MISSING,
};
use wasm_build_support::platform::{Argument, Invocation, Platform};
use wasm_build_support::process::{OsError, OsErrorKind, ProcessOutput, SpawnOutcome};
use wasm_build_support::progress::Progress;

/// The answers that are given to the pipeline, each at most once.
struct World {
    package_manager: Option<SpawnOutcome>,
    bundler: Option<SpawnOutcome>,
    confirmation: Option<Confirmation>,
    installation: Option<SpawnOutcome>,
}

fn exited(success: bool) -> SpawnOutcome {
    SpawnOutcome::Ran(ProcessOutput {
        success,
        stdout: b"out".to_vec(),
        stderr: b"error: network unreachable".to_vec(),
    })
}

fn not_found() -> OsError {
    OsError { kind: OsErrorKind::NotFound, message: "program not found".to_string() }
}

fn denied() -> OsError {
    OsError { kind: OsErrorKind::PermissionDenied, message: "permission denied".to_string() }
}

fn broken() -> OsError {
    OsError { kind: OsErrorKind::Other, message: "exec format error".to_string() }
}

fn world(
    package_manager: SpawnOutcome,
    bundler: SpawnOutcome,
    confirmation: Confirmation,
    installation: SpawnOutcome,
) -> World {
    World {
        package_manager: Some(package_manager),
        bundler: Some(bundler),
        confirmation: Some(confirmation),
        installation: Some(installation),
    }
}

/// Performs what the pipeline asks for until it is over. An effect that is
/// asked for a second time finds its answer gone and fails the test.
fn run(
    skip_prompt: bool,
    platform: Platform,
    mut world: World,
) -> (Vec<InstallEffect>, InstallProgress) {
    let mut seen = InstallObservations::new();
    let mut effects = Vec::new();
    loop {
        match install_if_required(skip_prompt, platform, &seen) {
            InstallProgress::Need(effect) => {
                let answer = match &effect {
                    InstallEffect::ProbePackageManager(_) => {
                        InstallAnswer::Outcome(world.package_manager.take().unwrap())
                    }
                    InstallEffect::ProbeBundler(_) => {
                        InstallAnswer::Outcome(world.bundler.take().unwrap())
                    }
                    InstallEffect::Confirm(_) => {
                        InstallAnswer::Confirmation(world.confirmation.take().unwrap())
                    }
                    InstallEffect::Install(_) => {
                        InstallAnswer::Outcome(world.installation.take().unwrap())
                    }
                    InstallEffect::ReportFailure(_) => {
                        assert!(!seen.failure_reported);
                        InstallAnswer::Shown
                    }
                };
                seen.record(&effect, answer);
                effects.push(effect);
            }
            over => return (effects, over),
        }
    }
}

fn text(word: &str) -> Argument {
    Argument::Text(word.to_string())
}

fn yarn_probe() -> InstallEffect {
    InstallEffect::ProbePackageManager(Invocation {
        program: "yarn".to_string(),
        args: vec![text("-v")],
    })
}

fn webpack_probe() -> InstallEffect {
    InstallEffect::ProbeBundler(Invocation {
        program: "webpack".to_string(),
        args: vec![text("-v")],
    })
}

fn ask() -> InstallEffect {
    InstallEffect::Confirm(
        "No installation of webpack found. Do you want to install webpack? (y/n)".to_string(),
    )
}

fn yarn_add() -> InstallEffect {
    InstallEffect::Install(Invocation {
        program: "yarn".to_string(),
        args: vec![text("global"), text("add"), text("webpack"), text("webpack-cli")],
    })
}

fn times_asked(effects: &[InstallEffect]) -> usize {
    effects.iter().filter(|effect| matches!(effect, InstallEffect::Confirm(_))).count()
}

#[test]
fn messages_for_the_user() {
    assert_eq!(
        YARN_MISSING,
        "No installation of yarn found. yarn is required to install webpack. https://yarnpkg.com/"
    );
    assert_eq!(
        WEBPACK_INSTALL_PROMPT,
        "No installation of webpack found. Do you want to install webpack? (y/n)"
    );
}

#[test]
fn first_the_package_manager_is_looked_for() {
    let seen = InstallObservations::new();
    assert_eq!(install_if_required(false, Platform::Other, &seen), InstallProgress::Need(yarn_probe()));
    assert_eq!(install_if_required(true, Platform::Other, &seen), InstallProgress::Need(yarn_probe()));
    assert_eq!(
        install_if_required(false, Platform::Windows, &seen),
        InstallProgress::Need(InstallEffect::ProbePackageManager(Invocation {
            program: "yarn.cmd".to_string(),
            args: vec![text("-v")],
        }))
    );
}

#[test]
fn missing_package_manager_aborts() {
    for skip_prompt in [false, true] {
        let (effects, end) = run(
            skip_prompt,
            Platform::Other,
            world(
                SpawnOutcome::Failed(not_found()),
                exited(true),
                Confirmation::Answered(true),
                exited(true),
            ),
        );
        assert_eq!(effects, vec![yarn_probe()]);
        assert_eq!(
            end,
            InstallProgress::Abort(
                "No installation of yarn found. yarn is required to install webpack. https://yarnpkg.com/"
                    .to_string()
            )
        );
    }
}

#[test]
fn failing_to_look_for_the_package_manager_is_an_error() {
    let (effects, end) = run(
        false,
        Platform::Other,
        world(
            SpawnOutcome::Failed(denied()),
            SpawnOutcome::Failed(not_found()),
            Confirmation::Answered(true),
            exited(true),
        ),
    );
    assert_eq!(effects, vec![yarn_probe()]);
    assert_eq!(end, InstallProgress::Done(Err(Error::YarnCommandError(denied()))));
}

#[test]
fn bundler_present_needs_nothing() {
    for skip_prompt in [false, true] {
        let (effects, end) = run(
            skip_prompt,
            Platform::Other,
            world(exited(true), exited(false), Confirmation::Answered(true), exited(true)),
        );
        assert_eq!(effects, vec![yarn_probe(), webpack_probe()]);
        assert_eq!(end, InstallProgress::Done(Ok(())));
        assert_eq!(times_asked(&effects), 0);
    }
}

#[test]
fn failing_to_look_for_the_bundler_is_an_error() {
    for skip_prompt in [false, true] {
        let (effects, end) = run(
            skip_prompt,
            Platform::Other,
            world(
                exited(true),
                SpawnOutcome::Failed(broken()),
                Confirmation::Answered(true),
                exited(true),
            ),
        );
        assert_eq!(effects, vec![yarn_probe(), webpack_probe()]);
        assert_eq!(end, InstallProgress::Done(Err(Error::WebpackCommandError(broken()))));
    }
}

#[test]
fn skip_prompt_installs_without_asking() {
    let (effects, end) = run(
        true,
        Platform::Other,
        world(
            exited(true),
            SpawnOutcome::Failed(not_found()),
            Confirmation::Answered(false),
            exited(true),
        ),
    );
    assert_eq!(effects, vec![yarn_probe(), webpack_probe(), yarn_add()]);
    assert_eq!(end, InstallProgress::Done(Ok(())));
    assert_eq!(times_asked(&effects), 0);
}

#[test]
fn skip_prompt_never_asks_whatever_was_seen() {
    let outcomes: [fn() -> Option<SpawnOutcome>; 5] = [
        || None,
        || Some(exited(true)),
        || Some(exited(false)),
        || Some(SpawnOutcome::Failed(not_found())),
        || Some(SpawnOutcome::Failed(broken())),
    ];
    for package_manager in outcomes.iter() {
        for bundler in outcomes.iter() {
            for installation in outcomes.iter() {
                for failure_reported in [false, true] {
                    let seen = InstallObservations {
                        package_manager: package_manager(),
                        bundler: bundler(),
                        confirmation: None,
                        installation: installation(),
                        failure_reported,
                    };
                    let next = install_if_required(true, Platform::Other, &seen);
                    assert!(!matches!(next, InstallProgress::Need(InstallEffect::Confirm(_))));
                }
            }
        }
    }
}

#[test]
fn missing_bundler_asks_once_and_installs_on_yes() {
    let (effects, end) = run(
        false,
        Platform::Other,
        world(
            exited(true),
            SpawnOutcome::Failed(not_found()),
            Confirmation::Answered(true),
            exited(true),
        ),
    );
    assert_eq!(effects, vec![yarn_probe(), webpack_probe(), ask(), yarn_add()]);
    assert_eq!(end, InstallProgress::Done(Ok(())));
    assert_eq!(times_asked(&effects), 1);
}

#[test]
fn declining_leaves_the_bundler_missing() {
    let (effects, end) = run(
        false,
        Platform::Other,
        world(
            exited(true),
            SpawnOutcome::Failed(not_found()),
            Confirmation::Answered(false),
            exited(true),
        ),
    );
    assert_eq!(effects, vec![yarn_probe(), webpack_probe(), ask()]);
    assert_eq!(end, InstallProgress::Done(Err(Error::WebpackMissing)));
    assert_eq!(times_asked(&effects), 1);
}

#[test]
fn a_failing_prompt_is_passed_on() {
    let (effects, end) = run(
        false,
        Platform::Other,
        world(
            exited(true),
            SpawnOutcome::Failed(not_found()),
            Confirmation::Failed(PromptFailure { message: "stdin is closed".to_string() }),
            exited(true),
        ),
    );
    assert_eq!(effects, vec![yarn_probe(), webpack_probe(), ask()]);
    assert_eq!(
        end,
        InstallProgress::Done(Err(Error::PromptError(PromptFailure {
            message: "stdin is closed".to_string()
        })))
    );
}

#[test]
fn the_user_is_asked_only_for_a_missing_bundler() {
    let bundlers: [fn() -> SpawnOutcome; 4] = [
        || exited(true),
        || exited(false),
        || SpawnOutcome::Failed(not_found()),
        || SpawnOutcome::Failed(denied()),
    ];
    let expected = [0, 0, 1, 0];
    for (bundler, asked) in bundlers.iter().zip(expected.iter()) {
        let (effects, _) = run(
            false,
            Platform::Other,
            world(exited(true), bundler(), Confirmation::Answered(true), exited(true)),
        );
        assert_eq!(times_asked(&effects), *asked);
    }
}

#[test]
fn a_recorded_answer_is_not_asked_for_again() {
    let seen = InstallObservations {
        package_manager: Some(exited(true)),
        bundler: Some(SpawnOutcome::Failed(not_found())),
        confirmation: None,
        installation: None,
        failure_reported: false,
    };
    assert_eq!(install_if_required(false, Platform::Other, &seen), InstallProgress::Need(ask()));
    let answered = InstallObservations { confirmation: Some(Confirmation::Answered(true)), ..seen };
    assert_eq!(install_if_required(false, Platform::Other, &answered), InstallProgress::Need(yarn_add()));
}

#[test]
fn failed_installation_is_reported_and_then_an_error() {
    for skip_prompt in [false, true] {
        let (effects, end) = run(
            skip_prompt,
            Platform::Other,
            world(
                exited(true),
                SpawnOutcome::Failed(not_found()),
                Confirmation::Answered(true),
                exited(false),
            ),
        );
        assert_eq!(
            effects.last(),
            Some(&InstallEffect::ReportFailure(b"error: network unreachable".to_vec()))
        );
        assert_eq!(effects[effects.len() - 2], yarn_add());
        assert_eq!(end, InstallProgress::Done(Err(Error::InstallFailed)));
    }
}

#[test]
fn installation_that_cannot_start_is_an_error() {
    let (effects, end) = run(
        true,
        Platform::Other,
        world(
            exited(true),
            SpawnOutcome::Failed(not_found()),
            Confirmation::Answered(true),
            SpawnOutcome::Failed(not_found()),
        ),
    );
    assert_eq!(effects, vec![yarn_probe(), webpack_probe(), yarn_add()]);
    assert_eq!(end, InstallProgress::Done(Err(Error::InstallCommandError(not_found()))));
}

#[test]
fn installation_goes_through_the_command_interpreter_on_windows() {
    let (effects, end) = run(
        true,
        Platform::Windows,
        world(
            exited(true),
            SpawnOutcome::Failed(not_found()),
            Confirmation::Answered(true),
            exited(true),
        ),
    );
    assert_eq!(
        effects,
        vec![
            InstallEffect::ProbePackageManager(Invocation {
                program: "yarn.cmd".to_string(),
                args: vec![text("-v")],
            }),
            InstallEffect::ProbeBundler(Invocation {
                program: "webpack.cmd".to_string(),
                args: vec![text("-v")],
            }),
            InstallEffect::Install(Invocation {
                program: "cmd".to_string(),
                args: vec![
                    text("/k"),
                    text("yarn.cmd"),
                    text("global"),
                    text("add"),
                    text("webpack"),
                    text("webpack-cli"),
                ],
            }),
        ]
    );
    assert_eq!(end, InstallProgress::Done(Ok(())));
}

#[test]
fn install_answers_are_recorded_where_the_effect_says() {
    let mut seen = InstallObservations::new();
    seen.record(&yarn_probe(), InstallAnswer::Outcome(exited(true)));
    seen.record(&webpack_probe(), InstallAnswer::Outcome(SpawnOutcome::Failed(not_found())));
    seen.record(&ask(), InstallAnswer::Confirmation(Confirmation::Answered(true)));
    seen.record(&yarn_add(), InstallAnswer::Outcome(exited(false)));
    seen.record(&InstallEffect::ReportFailure(Vec::new()), InstallAnswer::Shown);
    assert_eq!(
        seen,
        InstallObservations {
            package_manager: Some(exited(true)),
            bundler: Some(SpawnOutcome::Failed(not_found())),
            confirmation: Some(Confirmation::Answered(true)),
            installation: Some(exited(false)),
            failure_reported: true,
        }
    );
}

#[test]
fn an_install_answer_of_the_wrong_kind_is_not_recorded() {
    let mut seen = InstallObservations::new();
    seen.record(&yarn_probe(), InstallAnswer::Shown);
    seen.record(&yarn_probe(), InstallAnswer::Confirmation(Confirmation::Answered(true)));
    seen.record(&ask(), InstallAnswer::Outcome(exited(true)));
    seen.record(&InstallEffect::ReportFailure(Vec::new()), InstallAnswer::Outcome(exited(true)));
    assert_eq!(seen, InstallObservations::new());
    assert_eq!(install_if_required(false, Platform::Other, &seen), InstallProgress::Need(yarn_probe()));
}

#[test]
fn install_reads_what_came_of_the_installation() {
    assert_eq!(install(Platform::Other, &None, false), Progress::Need(yarn_add()));
    assert_eq!(install(Platform::Other, &Some(exited(true)), false), Progress::Done(Ok(())));
    assert_eq!(
        install(Platform::Other, &Some(exited(false)), false),
        Progress::Need(InstallEffect::ReportFailure(b"error: network unreachable".to_vec()))
    );
    assert_eq!(
        install(Platform::Other, &Some(exited(false)), true),
        Progress::Done(Err(Error::InstallFailed))
    );
    assert_eq!(
        install(Platform::Other, &Some(SpawnOutcome::Failed(denied())), false),
        Progress::Done(Err(Error::InstallCommandError(denied())))
    );
}

#[test]
fn no_run_is_longer_than_five_effects() {
    let outcomes: [fn() -> SpawnOutcome; 4] = [
        || exited(true),
        || exited(false),
        || SpawnOutcome::Failed(not_found()),
        || SpawnOutcome::Failed(broken()),
    ];
    let answers: [fn() -> Confirmation; 3] = [
        || Confirmation::Answered(true),
        || Confirmation::Answered(false),
        || Confirmation::Failed(PromptFailure { message: "no terminal".to_string() }),
    ];
    for skip_prompt in [false, true] {
        for package_manager in outcomes.iter() {
            for bundler in outcomes.iter() {
                for answer in answers.iter() {
                    for installation in outcomes.iter() {
                        let (effects, end) = run(
                            skip_prompt,
                            Platform::Other,
                            world(package_manager(), bundler(), answer(), installation()),
                        );
                        assert!(effects.len() <= 5);
                        assert!(!matches!(end, InstallProgress::Need(_)));
                        assert!(times_asked(&effects) <= 1);
                        if skip_prompt {
                            assert_eq!(times_asked(&effects), 0);
                        }
                    }
                }
            }
        }
    }
}
