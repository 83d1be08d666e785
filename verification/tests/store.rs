use slox::building::parse_build_config;
use slox::cli::{ActivateCommand, Commands, EnvCommand, PkgCommand};
use slox::paths::StorePaths;
use slox::protocol::{Action, DirItem, Directive, Event, Mode, Outcome, ShimStage};
use slox::session::Session;
use std::collections::{BTreeMap, BTreeSet};

/// A file system held in memory, answering the actions of a session.
#[derive(Default)]
struct World {
    dirs: BTreeSet<String>,
    files: BTreeMap<String, String>,
    executable: BTreeSet<String>,
    /// What running the build script in a directory leaves behind.
    builds: BTreeMap<String, Vec<(String, String)>>,
    actions: Vec<String>,
}

fn parent(path: &str) -> String {
    match path.rfind('/') {
        Some(0) => "/".to_string(),
        Some(i) => path[..i].to_string(),
        None => String::new(),
    }
}

impl World {
    fn create_dir_all(&mut self, path: &str) {
        let mut current = String::new();
        for part in path.split('/') {
            if part.is_empty() {
                continue;
            }
            current.push('/');
            current.push_str(part);
            self.dirs.insert(current.clone());
        }
    }

    fn write(&mut self, path: &str, contents: &str) -> Result<(), String> {
        if !self.dirs.contains(&parent(path)) {
            return Err("No such file or directory".to_string());
        }
        self.files.insert(path.to_string(), contents.to_string());
        Ok(())
    }

    fn holds(&self, path: &str) -> bool {
        self.dirs.contains(path) || self.files.contains_key(path)
    }

    fn list(&self, dir: &str) -> Vec<DirItem> {
        let prefix = format!("{dir}/");
        let mut items = Vec::new();
        for d in &self.dirs {
            if let Some(name) = d.strip_prefix(&prefix) {
                if !name.contains('/') {
                    items.push(DirItem::Item {
                        path: d.clone(),
                        name: name.to_string(),
                        is_file: false,
                    });
                }
            }
        }
        for f in self.files.keys() {
            if let Some(name) = f.strip_prefix(&prefix) {
                if !name.contains('/') {
                    items.push(DirItem::Item {
                        path: f.clone(),
                        name: name.to_string(),
                        is_file: true,
                    });
                }
            }
        }
        items
    }

    fn answer(&mut self, action: &Action) -> Event {
        match action {
            Action::CreateDirAll { path } => {
                self.create_dir_all(path);
                Event::Done
            }
            Action::RemoveDirAll { path } => {
                if !self.dirs.contains(path) {
                    return Event::Failed {
                        error: "No such file or directory".to_string(),
                    };
                }
                let prefix = format!("{path}/");
                self.dirs.retain(|d| d != path && !d.starts_with(&prefix));
                self.files.retain(|f, _| !f.starts_with(&prefix));
                Event::Done
            }
            Action::RemoveFile { path } => match self.files.remove(path) {
                Some(_) => Event::Done,
                None => Event::Failed {
                    error: "No such file or directory".to_string(),
                },
            },
            Action::RemoveFiles { paths } => {
                for path in paths {
                    if self.files.remove(path).is_none() {
                        return Event::Stopped {
                            path: path.clone(),
                            error: "No such file or directory".to_string(),
                        };
                    }
                }
                Event::Done
            }
            Action::WriteFile { path, contents } => match self.write(path, contents) {
                Ok(()) => Event::Done,
                Err(error) => Event::Failed { error },
            },
            Action::WriteShims { shims } => {
                for shim in shims {
                    if let Err(error) = self.write(&shim.path, &shim.script) {
                        return Event::ShimFailed {
                            path: shim.path.clone(),
                            stage: ShimStage::Write,
                            error,
                        };
                    }
                    self.executable.insert(shim.path.clone());
                }
                Event::Done
            }
            Action::CopyFile { from, to } => match self.files.get(from).cloned() {
                Some(contents) => match self.write(to, &contents) {
                    Ok(()) => Event::Done,
                    Err(error) => Event::Failed { error },
                },
                None => Event::Failed {
                    error: "No such file or directory".to_string(),
                },
            },
            Action::ReadToString { path } => match self.files.get(path) {
                Some(text) => Event::Text { text: text.clone() },
                None => Event::Failed {
                    error: "No such file or directory".to_string(),
                },
            },
            Action::Exists { path } => Event::Answer {
                yes: self.holds(path),
            },
            Action::IsDir { path } => Event::Answer {
                yes: self.dirs.contains(path),
            },
            Action::IsFile { path } => Event::Answer {
                yes: self.files.contains_key(path),
            },
            Action::ListDir { path } => {
                if self.dirs.contains(path) {
                    Event::Listing {
                        items: self.list(path),
                    }
                } else {
                    Event::Failed {
                        error: "No such file or directory".to_string(),
                    }
                }
            }
            Action::RunBuildScript { dir, .. } => match self.builds.get(dir).cloned() {
                Some(outputs) => {
                    for (relative, contents) in outputs {
                        let path = format!("{dir}/{relative}");
                        self.create_dir_all(&parent(&path));
                        self.files.insert(path, contents);
                    }
                    Event::BuildExited {
                        success: true,
                        stdout: String::new(),
                        stderr: String::new(),
                    }
                }
                None => Event::BuildExited {
                    success: false,
                    stdout: String::new(),
                    stderr: "  bash: build: command failed\n".to_string(),
                },
            },
            Action::OpenRepository { .. } => Event::Done,
            Action::CloneRepository { path, .. } => {
                self.create_dir_all(path);
                Event::Done
            }
            Action::UpdateSubmodule { .. } => Event::Done,
            Action::Finish { .. } => panic!("a finished session asks for nothing"),
        }
    }

    /// Runs a session to its end: the lines it showed and its result.
    fn drive(&mut self, start: (Session, Directive)) -> (Vec<String>, Result<Outcome, String>) {
        let (mut session, mut directive) = start;
        let mut notices = Vec::new();
        loop {
            notices.extend(directive.notices);
            if let Action::Finish { result } = directive.action {
                return (notices, result);
            }
            self.actions.push(format!("{:?}", std::mem::discriminant(&directive.action)));
            let event = self.answer(&directive.action);
            assert!(session.expects(&event), "the session should accept the answer");
            let (next_session, next_directive) = session.step(event);
            session = next_session;
            directive = next_directive;
        }
    }
}

const BASE: &str = "/tmp/slox-store";

fn make_store() -> StorePaths {
    StorePaths {
        base: BASE.to_string(),
    }
}

fn make_world() -> World {
    let mut world = World::default();
    world.create_dir_all(BASE);
    world.create_dir_all("/tmp/repo");
    world
}

fn command(mode: Mode, command: Commands) -> (Session, Directive) {
    match mode {
        Mode::Direct => slox::run(command, make_store()),
        Mode::Shims => slox::managed::run(command, make_store()),
    }
}

fn env(mode: Mode, world: &mut World, cmd: EnvCommand) -> Result<Outcome, String> {
    world.drive(command(mode, Commands::Env { command: cmd })).1
}

fn add_env(mode: Mode, world: &mut World, name: &str) -> Result<Outcome, String> {
    env(mode, world, EnvCommand::Add { path: name.to_string() })
}

fn set_env(mode: Mode, world: &mut World, name: &str) -> Result<Outcome, String> {
    env(mode, world, EnvCommand::Select { path: name.to_string() })
}

fn remove_env(mode: Mode, world: &mut World, name: &str) -> Result<Outcome, String> {
    env(mode, world, EnvCommand::Remove { path: name.to_string() })
}

fn active_env_name(mode: Mode, world: &mut World) -> Result<Option<String>, String> {
    match world.drive(Session::active_env_name(mode, make_store())).1? {
        Outcome::ActiveEnv { name } => Ok(name),
        _ => panic!("expected the active environment"),
    }
}

fn active_bin_dir(mode: Mode, world: &mut World) -> Result<String, String> {
    match world.drive(Session::active_bin_dir(mode, make_store())).1? {
        Outcome::BinDir { path } => Ok(path),
        _ => panic!("expected a bin directory"),
    }
}

fn add_and_remove(mode: Mode) {
    let mut world = make_world();
    let store = make_store();
    let env_dir = store.env_dir("demo");

    add_env(mode, &mut world, "demo").expect("env should be created");
    assert!(world.dirs.contains(&env_dir));
    assert!(world.dirs.contains(&store.env_bin_dir("demo")));

    remove_env(mode, &mut world, "demo").expect("env should be removed");
    assert!(!world.holds(&env_dir));
}

#[test]
fn add_and_remove_env_under_store() {
    add_and_remove(Mode::Shims);
}

#[test]
fn lib_add_and_remove_env_under_store() {
    add_and_remove(Mode::Direct);
}

fn set_changes_active(mode: Mode) -> World {
    let mut world = make_world();
    let store = make_store();
    add_env(mode, &mut world, "demo").expect("env should be created");

    set_env(mode, &mut world, "demo").expect("env should be set");
    assert_eq!(
        active_env_name(mode, &mut world).expect("active env should be readable"),
        Some("demo".to_string())
    );
    assert_eq!(
        active_bin_dir(mode, &mut world).expect("active bin dir should resolve"),
        store.env_bin_dir("demo")
    );
    world
}

#[test]
fn set_env_changes_active_bin_dir_and_activation_script() {
    let mut world = set_changes_active(Mode::Shims);
    let store = make_store();
    let script = match world
        .drive(command(
            Mode::Shims,
            Commands::Activate {
                command: ActivateCommand::Bash,
            },
        ))
        .1
        .expect("env activation script should render")
    {
        Outcome::Script { text } => text,
        _ => panic!("expected a script"),
    };
    let expected = [
        format!("_slox_store={}\n", slox::activate::shell_single_quote(&store.base)),
        format!(
            "_slox_bin={}\n",
            slox::activate::shell_single_quote(&store.shim_bin_dir())
        ),
        [
            "_slox_filtered_path=\n",
            "_slox_old_ifs=$IFS\n",
            "IFS=:\n",
            "for _slox_entry in $PATH; do\n",
            "  case \"$_slox_entry\" in\n",
            "    \"$_slox_store\"/bin|\"$_slox_store\"/bin/)\n",
            "      ;;\n",
            "    '')\n",
            "      ;;\n",
            "    *)\n",
            "      if [ -n \"$_slox_filtered_path\" ]; then\n",
            "        _slox_filtered_path=\"$_slox_filtered_path:$_slox_entry\"\n",
            "      else\n",
            "        _slox_filtered_path=\"$_slox_entry\"\n",
            "      fi\n",
            "      ;;\n",
            "  esac\n",
            "done\n",
            "IFS=$_slox_old_ifs\n",
            "if [ -n \"$_slox_filtered_path\" ]; then\n",
            "  export PATH=\"$_slox_bin:$_slox_filtered_path\"\n",
            "else\n",
            "  export PATH=\"$_slox_bin\"\n",
            "fi\n",
            "unset _slox_store _slox_bin _slox_filtered_path _slox_old_ifs _slox_entry",
        ]
        .concat(),
    ]
    .concat();
    assert_eq!(script, expected);
}

#[test]
fn lib_set_env_changes_active_bin_dir_and_activation_script() {
    let mut world = set_changes_active(Mode::Direct);
    let store = make_store();
    let script = match world
        .drive(command(
            Mode::Direct,
            Commands::Activate {
                command: ActivateCommand::Bash,
            },
        ))
        .1
        .expect("env activation script should render")
    {
        Outcome::Script { text } => text,
        _ => panic!("expected a script"),
    };
    assert_eq!(
        script,
        format!(r#"export PATH="$PATH:{}/""#, store.env_bin_dir("demo"))
    );
}

fn removing_active_clears(mode: Mode) {
    let mut world = make_world();
    let store = make_store();
    add_env(mode, &mut world, "demo").expect("env should be created");
    set_env(mode, &mut world, "demo").expect("env should be set");

    remove_env(mode, &mut world, "demo").expect("env should be removed");
    assert_eq!(
        active_env_name(mode, &mut world).expect("active env should be readable"),
        None
    );
    assert_eq!(
        active_bin_dir(mode, &mut world).expect("root bin should be used"),
        store.root_bin_dir()
    );
}

#[test]
fn removing_active_env_clears_active_env_file() {
    removing_active_clears(Mode::Shims);
}

#[test]
fn lib_removing_active_env_clears_active_env_file() {
    removing_active_clears(Mode::Direct);
}

fn install(mode: Mode, world: &mut World, name: &str, echo: &str) -> Result<Outcome, String> {
    world.builds.insert(
        "/tmp/repo".to_string(),
        vec![(format!("bin/{name}"), format!("#!/bin/sh\necho {echo}\n"))],
    );
    world
        .write(
            "/tmp/repo/build",
            &format!(
                "#!/bin/sh\nmkdir -p bin\nprintf '#!/bin/sh\\necho {echo}\\n' > bin/{name}\nchmod +x bin/{name}\n"
            ),
        )
        .expect("failed to write build script");
    world
        .drive(Session::install_package_from_dir(
            mode,
            make_store(),
            "/tmp/repo",
            name,
        ))
        .1
}

/// Installs the package in `/tmp/repo`, whose `build.toml` holds `config`
/// and whose build leaves `outputs`, after writing its build script at
/// `script`.
fn install_configured(
    mode: Mode,
    world: &mut World,
    config: &str,
    script: &str,
    outputs: Vec<(String, String)>,
) -> Result<Outcome, String> {
    world.create_dir_all(&parent(&format!("/tmp/repo/{script}")));
    world
        .write(&format!("/tmp/repo/{script}"), "#!/bin/sh\n")
        .expect("build script should be written");
    world
        .write("/tmp/repo/build.toml", config)
        .expect("build config should be written");
    world.builds.insert("/tmp/repo".to_string(), outputs);
    world
        .drive(Session::install_package_from_dir(
            mode,
            make_store(),
            "/tmp/repo",
            "demo",
        ))
        .1
}

#[test]
fn build_toml_can_override_script_and_binary_location() {
    let config = "script = \"scripts/custom-build.sh\"\nbinary = \"dist/custom-bin\"\n";
    let build_config = parse_build_config(config).expect("config should load");
    assert_eq!(build_config.script.as_deref(), Some("scripts/custom-build.sh"));
    assert_eq!(build_config.binary.as_deref(), Some("dist/custom-bin"));
    for mode in [Mode::Shims, Mode::Direct] {
        let mut world = make_world();
        let store = make_store();
        install_configured(
            mode,
            &mut world,
            config,
            "scripts/custom-build.sh",
            vec![(
                "dist/custom-bin".to_string(),
                "#!/bin/sh\necho custom\n".to_string(),
            )],
        )
        .expect("custom binary should install");
        let installed_binary = format!("{}/demo", store.root_bin_dir());
        let contents = world
            .files
            .get(&installed_binary)
            .expect("failed to read installed binary");
        assert!(contents.contains("custom"));
    }
}

#[test]
fn build_toml_can_override_installed_name() {
    let config = "name = \"renamed\"\nbinary = \"bin/original\"\n";
    let build_config = parse_build_config(config).expect("config should load");
    assert_eq!(build_config.name.as_deref(), Some("renamed"));
    for mode in [Mode::Shims, Mode::Direct] {
        let mut world = make_world();
        let store = make_store();
        install_configured(
            mode,
            &mut world,
            config,
            "build",
            vec![(
                "bin/original".to_string(),
                "#!/bin/sh\necho renamed\n".to_string(),
            )],
        )
        .expect("custom binary should install");
        assert!(world
            .files
            .contains_key(&format!("{}/renamed", store.root_bin_dir())));
        assert!(!world
            .files
            .contains_key(&format!("{}/demo", store.root_bin_dir())));
    }
}

#[test]
fn bad_build_toml_stops_the_install() {
    let mut world = make_world();
    let result = install_configured(
        Mode::Shims,
        &mut world,
        "scripts = \"x\"\n",
        "build",
        vec![("bin/demo".to_string(), "x".to_string())],
    );
    assert_eq!(
        result.err(),
        Some(
            "invalid build config `/tmp/repo/build.toml`: unknown key `scripts` in build.toml"
                .to_string()
        )
    );
}

#[test]
fn custom_build_script_must_exist() {
    let mut world = make_world();
    world.create_dir_all("/tmp/repo");
    world
        .write("/tmp/repo/build.toml", "script = \"make.sh\"\n")
        .expect("build config should be written");
    let result = world
        .drive(Session::install_package_from_dir(
            Mode::Shims,
            make_store(),
            "/tmp/repo",
            "demo",
        ))
        .1;
    assert_eq!(
        result.err(),
        Some("build failed for `demo`: expected build script at `/tmp/repo/make.sh`".to_string())
    );
}

fn build_and_install(mode: Mode) {
    let mut world = make_world();
    let store = make_store();
    install(mode, &mut world, "demo", "installed").expect("install should succeed");
    let installed_binary = format!("{}/demo", store.root_bin_dir());
    let contents = world
        .files
        .get(&installed_binary)
        .expect("failed to read installed binary");
    assert!(contents.contains("installed"));
}

#[test]
fn build_and_install_github_package_layout() {
    build_and_install(Mode::Shims);
}

#[test]
fn lib_build_and_install_github_package_layout() {
    build_and_install(Mode::Direct);
}

fn install_follows_env(mode: Mode) {
    let mut world = make_world();
    let store = make_store();
    add_env(mode, &mut world, "demo-env").expect("env should be created");
    set_env(mode, &mut world, "demo-env").expect("env should be set");

    install(mode, &mut world, "demo", "active-env").expect("install should succeed");
    let installed_binary = format!("{}/demo", store.env_bin_dir("demo-env"));
    assert!(world.files.contains_key(&installed_binary));
    assert!(!world
        .files
        .contains_key(&format!("{}/demo", store.root_bin_dir())));
}

#[test]
fn install_target_follows_active_env_bin() {
    install_follows_env(Mode::Shims);
}

#[test]
fn lib_install_target_follows_active_env_bin() {
    install_follows_env(Mode::Direct);
}

#[test]
fn sync_active_shims_points_to_active_env_bins() {
    let mut world = make_world();
    let store = make_store();
    add_env(Mode::Shims, &mut world, "demo").expect("env should be created");
    world.create_dir_all(&store.env_bin_dir("demo"));
    world
        .write(
            &format!("{}/demo", store.env_bin_dir("demo")),
            "#!/bin/sh\necho env\n",
        )
        .expect("binary should be written");

    set_env(Mode::Shims, &mut world, "demo").expect("env should be set");

    let shim_path = format!("{}/demo", store.shim_bin_dir());
    let shim_contents = world.files.get(&shim_path).expect("shim should be readable");
    assert!(shim_contents.contains(&format!("{}/demo", store.env_bin_dir("demo"))));
    assert!(world.executable.contains(&shim_path));
}

#[test]
fn clearing_active_env_refreshes_shims_to_root_bin() {
    let mut world = make_world();
    let store = make_store();
    add_env(Mode::Shims, &mut world, "demo").expect("env should be created");
    world.create_dir_all(&store.root_bin_dir());
    world
        .write(
            &format!("{}/root-tool", store.root_bin_dir()),
            "#!/bin/sh\necho root\n",
        )
        .expect("root binary should be written");
    world
        .write(
            &format!("{}/env-tool", store.env_bin_dir("demo")),
            "#!/bin/sh\necho env\n",
        )
        .expect("env binary should be written");

    set_env(Mode::Shims, &mut world, "demo").expect("env should be set");
    remove_env(Mode::Shims, &mut world, "demo").expect("env should be removed");

    let shim_dir = store.shim_bin_dir();
    assert!(world.files.contains_key(&format!("{shim_dir}/root-tool")));
    assert!(!world.holds(&format!("{shim_dir}/env-tool")));
}

#[test]
fn remove_package_deletes_binary_and_refreshes_shim() {
    let mut world = make_world();
    let store = make_store();
    world.create_dir_all(&store.root_bin_dir());
    world
        .write(
            &format!("{}/demo", store.root_bin_dir()),
            "#!/bin/sh\necho root\n",
        )
        .expect("package binary should be written");
    world
        .drive(Session::sync_active_shims(Mode::Shims, make_store()))
        .1
        .expect("shims should be created");
    assert!(world
        .files
        .contains_key(&format!("{}/demo", store.shim_bin_dir())));

    let removed = world
        .drive(command(
            Mode::Shims,
            Commands::Pkg {
                command: PkgCommand::Remove {
                    path: "demo".to_string(),
                },
            },
        ))
        .1
        .expect("package should be removable");
    match removed {
        Outcome::Report { report } => assert_eq!(report.summary, "removed package `demo`"),
        _ => panic!("expected a report"),
    }
    assert!(!world.holds(&format!("{}/demo", store.root_bin_dir())));
    assert!(!world.holds(&format!("{}/demo", store.shim_bin_dir())));
}

#[test]
fn selecting_a_missing_env_fails() {
    for mode in [Mode::Direct, Mode::Shims] {
        let mut world = make_world();
        assert_eq!(
            set_env(mode, &mut world, "ghost").unwrap_err(),
            "environment `ghost` does not exist. Run `slox env add ghost` first."
        );
        assert!(!world.holds(&make_store().active_env_file()));
    }
}

#[test]
fn fetching_an_env_gives_its_bin_dir() {
    let mut world = make_world();
    add_env(Mode::Shims, &mut world, "demo").unwrap();
    match env(Mode::Shims, &mut world, EnvCommand::Fetch { path: "demo".to_string() }).unwrap() {
        Outcome::Report { report } => {
            assert_eq!(report.summary, "found env `demo`");
            assert_eq!(report.details, vec![format!("bin: {}", make_store().env_bin_dir("demo"))]);
        }
        _ => panic!("expected a report"),
    }
    assert_eq!(
        env(Mode::Direct, &mut world, EnvCommand::Fetch { path: "other".to_string() }).unwrap_err(),
        "environment `other` does not exist. Run `slox env add other` first."
    );
}

#[test]
fn recorded_env_that_is_gone_is_reported() {
    let mut world = make_world();
    world
        .write(&make_store().active_env_file(), "gone\n")
        .unwrap();
    let result = world
        .drive(command(Mode::Direct, Commands::Activate { command: ActivateCommand::Sh }))
        .1;
    assert_eq!(
        result.unwrap_err(),
        "active environment `gone` is missing. Run `slox env add gone` or set another one."
    );
}

#[test]
fn unreadable_record_is_reported() {
    let mut world = make_world();
    world.create_dir_all(&make_store().active_env_file());
    let result = world
        .drive(command(Mode::Direct, Commands::Activate { command: ActivateCommand::Sh }))
        .1;
    assert_eq!(
        result.unwrap_err(),
        "failed to read active environment `/tmp/slox-store/active-env`: No such file or directory"
    );
}

#[test]
fn failed_build_is_reported() {
    let mut world = make_world();
    world.write("/tmp/repo/build", "exit 1\n").unwrap();
    let result = world
        .drive(Session::install_package_from_dir(Mode::Shims, make_store(), "/tmp/repo", "demo"))
        .1;
    assert_eq!(
        result.unwrap_err(),
        "build failed for `demo`: bash: build: command failed"
    );
}

#[test]
fn missing_build_script_is_reported() {
    let mut world = make_world();
    let result = world
        .drive(Session::install_package_from_dir(Mode::Direct, make_store(), "/tmp/repo", "demo"))
        .1;
    assert_eq!(
        result.unwrap_err(),
        "build failed for `demo`: expected build script at `/tmp/repo/build`"
    );
    let result = world
        .drive(Session::install_package_from_dir(Mode::Direct, make_store(), "/tmp/none", "demo"))
        .1;
    assert_eq!(
        result.unwrap_err(),
        "package directory `/tmp/none` does not exist"
    );
}

#[test]
fn direct_package_removal_only_warns() {
    let mut world = make_world();
    let (notices, result) = world.drive(command(
        Mode::Direct,
        Commands::Pkg { command: PkgCommand::Remove { path: "demo".to_string() } },
    ));
    assert!(matches!(result, Ok(Outcome::Quiet)));
    assert_eq!(
        notices,
        vec![slox::term::status_line(
            "WARN",
            "\x1b[38;5;220m",
            "Package removal is not implemented yet for `demo`."
        )]
    );
}

#[test]
fn removing_an_absent_env_is_reported() {
    let mut world = make_world();
    match remove_env(Mode::Shims, &mut world, "demo").unwrap() {
        Outcome::Report { report } => {
            assert_eq!(report.summary, "env `demo` was already absent");
            assert_eq!(report.details, vec![format!("path: {}", make_store().env_dir("demo"))]);
        }
        _ => panic!("expected a report"),
    }
    let (notices, result) = world.drive(command(
        Mode::Direct,
        Commands::Env { command: EnvCommand::Remove { path: "demo".to_string() } },
    ));
    assert!(matches!(result, Ok(Outcome::Quiet)));
    assert_eq!(
        notices,
        vec![slox::term::status_line(
            "WARN",
            "\x1b[38;5;220m",
            "Environment `demo` does not exist, nothing to remove."
        )]
    );
}

#[test]
fn github_package_is_cloned_built_and_installed() {
    let mut world = make_world();
    let store = make_store();
    let repo_dir = format!("{}/slox", store.cache_root());
    world.builds.insert(
        repo_dir.clone(),
        vec![("bin/slox".to_string(), "#!/bin/sh\necho slox\n".to_string())],
    );
    world.create_dir_all(&repo_dir);
    world.write(&format!("{repo_dir}/build"), "make\n").unwrap();
    let (notices, result) = world.drive(command(
        Mode::Shims,
        Commands::Pkg { command: PkgCommand::Add { path: "devwon/slox@github".to_string() } },
    ));
    assert!(notices.is_empty());
    match result.unwrap() {
        Outcome::Report { report } => {
            assert_eq!(report.summary, "added package `slox`");
            assert_eq!(
                report.details,
                vec![
                    format!("binary: {}/slox", store.root_bin_dir()),
                    format!("shim: {}/slox", store.shim_bin_dir()),
                ]
            );
        }
        _ => panic!("expected a report"),
    }
    assert!(world.files.contains_key(&format!("{}/slox", store.shim_bin_dir())));

    let (notices, result) = world.drive(command(
        Mode::Direct,
        Commands::Pkg { command: PkgCommand::Add { path: "devwon/slox@github".to_string() } },
    ));
    assert!(matches!(result, Ok(Outcome::Quiet)));
    assert_eq!(notices.len(), 3);
    assert!(notices[0].contains(&format!("Using cached repository at {repo_dir}")));
    assert!(notices[1].contains(&format!("Running {repo_dir}/build")));
    assert!(notices[2].contains(&format!("Installed slox to {}/slox", store.root_bin_dir())));
}

#[test]
fn registry_package_must_be_in_the_registry() {
    let mut world = make_world();
    let (notices, result) = world.drive(command(
        Mode::Direct,
        Commands::Pkg { command: PkgCommand::Add { path: "plur@sloxpkgs".to_string() } },
    ));
    assert_eq!(
        result.unwrap_err(),
        "package `plur` was not found in sloxpkgs registry `https://github.com/SloxPm/std-pkg`"
    );
    assert_eq!(notices.len(), 1);
    assert!(notices[0].contains(
        "Cloned https://github.com/SloxPm/std-pkg into /tmp/slox-store/tmp/std-pkg"
    ));
}

#[test]
fn bad_package_spec_ends_at_once() {
    let mut world = make_world();
    let result = world
        .drive(command(
            Mode::Shims,
            Commands::Pkg { command: PkgCommand::Add { path: "tool@npm".to_string() } },
        ))
        .1;
    assert_eq!(result.unwrap_err(), "unsupported package source `npm`");
    assert!(world.actions.is_empty());
}

#[test]
fn refreshing_shims_twice_changes_nothing() {
    let mut world = make_world();
    let store = make_store();
    world.create_dir_all(&store.root_bin_dir());
    world.create_dir_all(&store.shim_bin_dir());
    world
        .write(&format!("{}/tool", store.root_bin_dir()), "#!/bin/sh\n")
        .expect("binary should be written");
    world
        .write(&format!("{}/stale", store.shim_bin_dir()), "old shim")
        .expect("stale shim should be written");
    world
        .drive(Session::sync_active_shims(Mode::Shims, make_store()))
        .1
        .expect("shims should be refreshed");
    let once = world.files.clone();
    assert!(!once.contains_key(&format!("{}/stale", store.shim_bin_dir())));
    assert_eq!(
        once.get(&format!("{}/tool", store.shim_bin_dir())),
        Some(&format!(
            "#!/bin/sh\nexec \"{}/tool\" \"$@\"",
            store.root_bin_dir()
        ))
    );
    world
        .drive(Session::sync_active_shims(Mode::Shims, make_store()))
        .1
        .expect("shims should be refreshed");
    assert_eq!(world.files, once);
}

#[test]
fn refreshing_shims_twice_under_a_hand_written_record() {
    let mut world = make_world();
    let store = make_store();
    add_env(Mode::Shims, &mut world, "demo").expect("env should be created");
    world
        .write(&format!("{}/tool", store.env_bin_dir("demo")), "#!/bin/sh\n")
        .expect("binary should be written");
    world
        .write(&store.active_env_file(), "  demo \n")
        .expect("record should be written");
    world
        .drive(Session::sync_active_shims(Mode::Shims, make_store()))
        .1
        .expect("shims should be refreshed");
    let once = world.files.clone();
    assert_eq!(
        once.get(&format!("{}/tool", store.shim_bin_dir())),
        Some(&format!(
            "#!/bin/sh\nexec \"{}/tool\" \"$@\"",
            store.env_bin_dir("demo")
        ))
    );
    world
        .drive(Session::sync_active_shims(Mode::Shims, make_store()))
        .1
        .expect("shims should be refreshed");
    assert_eq!(world.files, once);
}
