use journal_tui::request::{CopyJob, Invocation, Outcome, Reply, Request, VaultError};
use journal_tui::volume::{
    generate_secure_password, hex_text, word_text, Operation, Stage, Step, VaultTask,
    VolumeManager, SECRET_LENGTH,
};

/// A pretended system: what exists, what was run, and what is to fail.
struct World {
    paths: Vec<String>,
    files: Vec<(String, Vec<String>)>,
    ran: Vec<Invocation>,
    made: Vec<String>,
    copied: Vec<CopyJob>,
    stored: Option<String>,
    failing: Vec<String>,
    requests: usize,
}

impl World {
    fn new() -> World {
        World {
            paths: Vec::new(),
            files: Vec::new(),
            ran: Vec::new(),
            made: Vec::new(),
            copied: Vec::new(),
            stored: None,
            failing: Vec::new(),
            requests: 0,
        }
    }

    fn mounted() -> World {
        let mut world = World::new();
        world.paths.push("/Volumes/JournalVault".to_string());
        world
    }

    fn fails(&self, what: &str) -> bool {
        self.failing.iter().any(|failing| failing == what)
    }

    fn exited(success: bool, stdout: &str, stderr: &str) -> Reply {
        Reply::Exited { success, stdout: stdout.to_string(), stderr: stderr.to_string() }
    }

    fn run(&mut self, command: Invocation) -> Reply {
        self.ran.push(command.clone());
        let words = World::words(&command);
        let verb = words[0].clone();
        let forced = command.args.iter().any(|arg| arg == "-force");
        let what = if forced { "force".to_string() } else { verb.clone() };
        if self.fails(&what) {
            return World::exited(false, "", &format!("{} failed", what));
        }
        match verb.as_str() {
            "create" => self.paths.push(command.args[command.args.len() - 1].clone()),
            "attach" => self.paths.push("/Volumes/JournalVault".to_string()),
            "detach" => self.paths.retain(|path| path != "/Volumes/JournalVault"),
            "add-generic-password" => {
                assert_eq!(words[5], "-X");
                self.stored = Some(unhex(&words[6]));
            }
            "find-generic-password" => {
                return match &self.stored {
                    Some(secret) => World::exited(true, &format!("{}\n", secret), ""),
                    None => World::exited(false, "", "not found"),
                };
            }
            _ => panic!("unknown command"),
        }
        World::exited(true, "", "")
    }

    fn answer(&mut self, request: Request) -> Reply {
        self.requests += 1;
        match request {
            Request::Probe(path) => Reply::Exists(self.paths.contains(&path)),
            Request::MakeDirs(path) => {
                if self.fails("mkdir") {
                    return Reply::Failed("permission denied".to_string());
                }
                self.made.push(path.clone());
                self.paths.push(path);
                Reply::Done
            }
            Request::Run(command) => self.run(command),
            Request::List(path) => {
                for (dir, names) in &self.files {
                    if *dir == path {
                        return Reply::Listed(names.clone());
                    }
                }
                Reply::Failed("cannot read directory".to_string())
            }
            Request::Copy(jobs) => {
                if self.fails("copy") {
                    return Reply::Failed("disk full".to_string());
                }
                self.copied.extend(jobs);
                Reply::Done
            }
        }
    }

    fn drive(&mut self, vault: &VolumeManager, first: Step) -> Result<Outcome, VaultError> {
        let mut step = first;
        loop {
            match step {
                Step::Finished(result) => return result,
                Step::Need(request, task) => {
                    let reply = self.answer(request);
                    step = vault.resume(task, reply);
                }
            }
        }
    }

    /// The words of the command: its arguments, or for the keychain tool
    /// that reads its commands from its standard input, the words of that.
    fn words(command: &Invocation) -> Vec<String> {
        if command.program == "security" && command.args == vec!["-i".to_string()] {
            let script = command.stdin.clone().unwrap();
            assert!(script.ends_with('\n'));
            script.split_whitespace().map(|word| word.to_string()).collect()
        } else {
            command.args.clone()
        }
    }

    fn verbs(&self) -> Vec<String> {
        self.ran.iter().map(|command| World::words(command)[0].clone()).collect()
    }
}

/// The text that the hexadecimal digits of `word` spell.
fn unhex(word: &str) -> String {
    if word == "\"\"" {
        return String::new();
    }
    assert!(!word.is_empty());
    assert!(word.len() % 2 == 0);
    assert!(word.chars().all(|c| matches!(c, '0'..='9' | 'a'..='f')));
    let bytes: Vec<u8> = (0..word.len() / 2)
        .map(|i| u8::from_str_radix(&word[2 * i..2 * i + 2], 16).unwrap())
        .collect();
    String::from_utf8(bytes).unwrap()
}

fn vault() -> VolumeManager {
    VolumeManager::with_home("/Users/neo")
}

fn texts(items: &[&str]) -> Vec<String> {
    items.iter().map(|item| item.to_string()).collect()
}

fn task_of(step: Step) -> (Request, VaultTask) {
    match step {
        Step::Need(request, task) => (request, task),
        Step::Finished(result) => panic!("finished with {:?}", result),
    }
}

fn result_of(step: Step) -> Result<Outcome, VaultError> {
    match step {
        Step::Finished(result) => result,
        Step::Need(request, _) => panic!("needs {:?}", request),
    }
}

#[test]
fn vault_lies_under_the_home_directory() {
    let vault = vault();
    assert_eq!(vault.dmg_path(), "/Users/neo/.journal/vault.dmg");
    assert_eq!(vault.mount_point(), "/Volumes/JournalVault");
    assert_eq!(vault.get_entries_path(), "/Volumes/JournalVault/entries");
    let copy = vault.clone();
    assert_eq!(copy.dmg_path(), "/Users/neo/.journal/vault.dmg");
    let slashed = VolumeManager::with_home("/Users/neo/");
    assert_eq!(slashed.dmg_path(), "/Users/neo/.journal/vault.dmg");
}

#[test]
fn vault_of_the_present_user_lies_under_a_home() {
    if let Some(vault) = VolumeManager::new() {
        assert!(vault.dmg_path().ends_with(".journal/vault.dmg"));
        assert_eq!(vault.mount_point(), "/Volumes/JournalVault");
    }
}

#[test]
fn missing_container_and_mount_point_are_seen_missing() {
    let vault = VolumeManager::with_home("/no/such/home/anywhere");
    assert!(!vault.dmg_exists());
    let here = VolumeManager::with_home("/");
    assert_eq!(here.is_mounted(), std::path::Path::new("/Volumes/JournalVault").exists());
}

#[test]
fn fresh_secrets_are_thirty_two_letters_and_digits() {
    assert_eq!(SECRET_LENGTH, 32);
    let mut seen = Vec::new();
    for _ in 0..100 {
        let secret = generate_secure_password();
        assert_eq!(secret.chars().count(), 32);
        assert!(secret.chars().all(|c| c.is_ascii_alphanumeric()));
        seen.push(secret);
    }
    let first = seen[0].clone();
    assert!(seen.iter().any(|secret| *secret != first));
}

#[test]
fn unmount_of_an_unmounted_vault_runs_nothing() {
    let vault = vault();
    let mut world = World::new();
    assert_eq!(world.drive(&vault, vault.unmount()), Ok(Outcome::Done));
    assert!(world.ran.is_empty());
    assert!(world.made.is_empty());
    assert_eq!(world.requests, 1);
    assert_eq!(world.drive(&vault, vault.unmount()), Ok(Outcome::Done));
    assert!(world.ran.is_empty());
}

#[test]
fn unmount_begins_by_looking_for_the_mount_point() {
    let (request, task) = task_of(vault().unmount());
    assert_eq!(request, Request::Probe("/Volumes/JournalVault".to_string()));
    assert_eq!(task.operation(), Operation::Unmount);
    assert_eq!(task.stage(), Stage::ProbingToDetach);
}

#[test]
fn unmount_detaches_a_mounted_vault() {
    let vault = vault();
    let mut world = World::mounted();
    assert_eq!(world.drive(&vault, vault.unmount()), Ok(Outcome::Done));
    assert_eq!(
        world.ran,
        vec![Invocation {
            program: "hdiutil".to_string(),
            args: texts(&["detach", "/Volumes/JournalVault"]),
            stdin: None,
        }]
    );
    assert!(world.paths.is_empty());
}

#[test]
fn unmount_forces_after_a_plain_detach_fails() {
    let vault = vault();
    let mut world = World::mounted();
    world.failing.push("detach".to_string());
    assert_eq!(world.drive(&vault, vault.unmount()), Ok(Outcome::Done));
    assert_eq!(world.ran.len(), 2);
    assert_eq!(world.ran[0].args, texts(&["detach", "/Volumes/JournalVault"]));
    assert_eq!(world.ran[1].program, "hdiutil");
    assert_eq!(world.ran[1].args, texts(&["detach", "/Volumes/JournalVault", "-force"]));
    assert_eq!(world.ran[1].stdin, None);
}

#[test]
fn unmount_fails_with_the_first_diagnostics_when_force_fails_too() {
    let vault = vault();
    let mut world = World::mounted();
    world.failing.push("detach".to_string());
    world.failing.push("force".to_string());
    assert_eq!(
        world.drive(&vault, vault.unmount()),
        Err(VaultError::Unmount("detach failed".to_string()))
    );
    assert_eq!(world.ran.len(), 2);
}

#[test]
fn mount_of_a_mounted_vault_runs_nothing() {
    let vault = vault();
    let mut world = World::new();
    assert_eq!(world.drive(&vault, vault.mount_with_password("s3cret")), Ok(Outcome::Done));
    assert_eq!(world.ran.len(), 1);
    assert_eq!(world.drive(&vault, vault.mount_with_password("s3cret")), Ok(Outcome::Done));
    assert_eq!(world.ran.len(), 1);
}

#[test]
fn mount_attaches_with_the_secret_on_standard_input() {
    let vault = vault();
    let mut world = World::new();
    assert_eq!(world.drive(&vault, vault.mount_with_password("s3cret")), Ok(Outcome::Done));
    assert_eq!(
        world.ran,
        vec![Invocation {
            program: "hdiutil".to_string(),
            args: texts(&["attach", "/Users/neo/.journal/vault.dmg", "-stdinpass"]),
            stdin: Some("s3cret\n".to_string()),
        }]
    );
}

#[test]
fn mount_fails_with_the_diagnostics_of_attach() {
    let vault = vault();
    let mut world = World::new();
    world.failing.push("attach".to_string());
    assert_eq!(
        world.drive(&vault, vault.mount_with_password("wrong")),
        Err(VaultError::Mount("attach failed".to_string()))
    );
    assert_eq!(world.ran.len(), 1);
}

#[test]
fn mount_with_the_stored_secret_reads_and_trims_it() {
    let vault = vault();
    let mut world = World::new();
    world.stored = Some("  k3y ".to_string());
    assert_eq!(world.drive(&vault, vault.mount_with_keychain()), Ok(Outcome::Done));
    assert_eq!(world.verbs(), texts(&["find-generic-password", "attach"]));
    assert_eq!(world.ran[1].stdin, Some("k3y\n".to_string()));
    assert_eq!(world.drive(&vault, vault.mount_with_keychain()), Ok(Outcome::Done));
    assert_eq!(world.ran.len(), 2);
}

#[test]
fn mount_with_the_stored_secret_needs_one() {
    let vault = vault();
    let mut world = World::new();
    assert_eq!(world.drive(&vault, vault.mount_with_keychain()), Err(VaultError::NotFound));
    assert_eq!(world.verbs(), texts(&["find-generic-password"]));
}

#[test]
fn secret_is_stored_and_read_back() {
    let vault = vault();
    let mut world = World::new();
    assert_eq!(world.drive(&vault, vault.get_password_from_keychain()), Err(VaultError::NotFound));
    assert_eq!(world.drive(&vault, vault.save_password_to_keychain("first")), Ok(Outcome::Done));
    assert_eq!(world.drive(&vault, vault.save_password_to_keychain("second")), Ok(Outcome::Done));
    assert_eq!(
        world.drive(&vault, vault.get_password_from_keychain()),
        Ok(Outcome::Secret("second".to_string()))
    );
    assert_eq!(
        world.ran[1],
        Invocation {
            program: "security".to_string(),
            args: texts(&["-i"]),
            stdin: Some(
                "add-generic-password -a journal-tui -s JournalVault -X 6669727374 -U -T /usr/bin/security\n"
                    .to_string()
            ),
        }
    );
    assert_eq!(
        world.ran[0],
        Invocation {
            program: "security".to_string(),
            args: texts(&[
                "find-generic-password",
                "-a",
                "journal-tui",
                "-s",
                "JournalVault",
                "-w",
            ]),
            stdin: None,
        }
    );
}

#[test]
fn store_fails_with_the_diagnostics_of_the_command() {
    let vault = vault();
    let mut world = World::new();
    world.failing.push("add-generic-password".to_string());
    assert_eq!(
        world.drive(&vault, vault.save_password_to_keychain("s")),
        Err(VaultError::Store("add-generic-password failed".to_string()))
    );
}

#[test]
fn create_makes_mounts_fills_unmounts_and_stores() {
    let vault = vault();
    let mut world = World::new();
    assert_eq!(world.drive(&vault, vault.create_encrypted_volume()), Ok(Outcome::Done));
    assert!(world.paths.contains(&"/Users/neo/.journal/vault.dmg".to_string()));
    assert_eq!(
        world.made,
        texts(&["/Users/neo/.journal", "/Volumes/JournalVault/entries"])
    );
    assert!(!world.paths.contains(&"/Volumes/JournalVault".to_string()));
    assert_eq!(world.verbs(), texts(&["create", "attach", "detach", "add-generic-password"]));
    let secret = world.stored.clone().unwrap();
    assert_eq!(secret.len(), 32);
    assert!(secret.chars().all(|c| c.is_ascii_alphanumeric()));
    assert_eq!(world.ran[0].program, "hdiutil");
    assert_eq!(
        world.ran[0].args,
        texts(&[
            "create",
            "-size",
            "100m",
            "-fs",
            "APFS",
            "-encryption",
            "AES-256",
            "-stdinpass",
            "-volname",
            "JournalVault",
            "/Users/neo/.journal/vault.dmg",
        ])
    );
    assert_eq!(world.ran[0].stdin, Some(secret.clone()));
    assert_eq!(world.ran[1].stdin, Some(format!("{}\n", secret)));
    assert_eq!(world.ran[3].args, texts(&["-i"]));
    assert_eq!(
        world.ran[3].stdin,
        Some(format!(
            "add-generic-password -a journal-tui -s JournalVault -X {} -U -T /usr/bin/security\n",
            hex_text(secret.as_bytes())
        ))
    );
    for command in &world.ran {
        if command.stdin != Some(secret.clone()) && command.stdin != Some(format!("{}\n", secret)) {
            assert!(command.stdin.iter().all(|text| !text.contains(&secret)));
        }
    }
    for command in &world.ran {
        assert!(command.args.iter().all(|arg| !arg.contains(&secret)));
    }
}

#[test]
fn create_with_a_given_secret_uses_it() {
    let vault = vault();
    let mut world = World::new();
    let step = vault.create_encrypted_volume_with("hunter2".to_string());
    assert_eq!(world.drive(&vault, step), Ok(Outcome::Done));
    assert_eq!(world.stored, Some("hunter2".to_string()));
    assert_eq!(world.ran[0].stdin, Some("hunter2".to_string()));
}

#[test]
fn create_draws_a_new_secret_each_time() {
    let vault = vault();
    let mut first = World::new();
    let mut second = World::new();
    assert_eq!(first.drive(&vault, vault.create_encrypted_volume()), Ok(Outcome::Done));
    assert_eq!(second.drive(&vault, vault.create_encrypted_volume()), Ok(Outcome::Done));
    assert_ne!(first.stored, second.stored);
}

#[test]
fn create_on_a_mounted_vault_attaches_nothing() {
    let vault = vault();
    let mut world = World::mounted();
    assert_eq!(world.drive(&vault, vault.create_encrypted_volume()), Ok(Outcome::Done));
    assert_eq!(world.verbs(), texts(&["create", "detach", "add-generic-password"]));
}

#[test]
fn create_stops_at_the_first_failure() {
    let vault = vault();
    let stages = [
        ("mkdir", VaultError::Io("permission denied".to_string()), 0),
        ("create", VaultError::Creation("create failed".to_string()), 1),
        ("attach", VaultError::Mount("attach failed".to_string()), 2),
        ("add-generic-password", VaultError::Store("add-generic-password failed".to_string()), 4),
    ];
    for (failing, error, ran) in stages {
        let mut world = World::new();
        world.failing.push(failing.to_string());
        assert_eq!(world.drive(&vault, vault.create_encrypted_volume()), Err(error));
        assert_eq!(world.ran.len(), ran);
    }
    let mut world = World::new();
    world.failing.push("detach".to_string());
    world.failing.push("force".to_string());
    assert_eq!(
        world.drive(&vault, vault.create_encrypted_volume()),
        Err(VaultError::Unmount("detach failed".to_string()))
    );
    assert_eq!(world.stored, None);
}

#[test]
fn migration_needs_a_mounted_vault() {
    let vault = vault();
    let mut world = World::new();
    assert_eq!(
        world.drive(&vault, vault.migrate_entries("/Users/neo/.journal/entries")),
        Err(VaultError::NotMounted)
    );
    assert!(world.made.is_empty());
    assert!(world.copied.is_empty());
}

#[test]
fn migration_from_a_missing_directory_copies_nothing_and_makes_the_destination() {
    let vault = vault();
    let mut world = World::mounted();
    assert_eq!(
        world.drive(&vault, vault.migrate_entries("/Users/neo/.journal/entries")),
        Ok(Outcome::Copied(0))
    );
    assert_eq!(world.made, texts(&["/Volumes/JournalVault/entries"]));
    assert!(world.copied.is_empty());
}

#[test]
fn migration_from_an_empty_directory_copies_nothing_and_makes_the_destination() {
    let vault = vault();
    let mut world = World::mounted();
    world.paths.push("/old".to_string());
    world.files.push(("/old".to_string(), Vec::new()));
    assert_eq!(world.drive(&vault, vault.migrate_entries("/old")), Ok(Outcome::Copied(0)));
    assert_eq!(world.made, texts(&["/Volumes/JournalVault/entries"]));
    assert!(world.copied.is_empty());
    world.files[0].1 = texts(&["notes.txt", ".md", "README"]);
    assert_eq!(world.drive(&vault, vault.migrate_entries("/old")), Ok(Outcome::Copied(0)));
    assert!(world.copied.is_empty());
}

#[test]
fn migration_copies_the_notes_and_counts_them() {
    let vault = vault();
    let mut world = World::mounted();
    world.paths.push("/old".to_string());
    world.files.push(("/old".to_string(), texts(&["a.md", "b.txt", "c.md", ".md", "d.MD", "e.md"])));
    assert_eq!(world.drive(&vault, vault.migrate_entries("/old")), Ok(Outcome::Copied(3)));
    assert_eq!(
        world.copied,
        vec![
            CopyJob {
                from: "/old/a.md".to_string(),
                to: "/Volumes/JournalVault/entries/a.md".to_string(),
            },
            CopyJob {
                from: "/old/c.md".to_string(),
                to: "/Volumes/JournalVault/entries/c.md".to_string(),
            },
            CopyJob {
                from: "/old/e.md".to_string(),
                to: "/Volumes/JournalVault/entries/e.md".to_string(),
            },
        ]
    );
}

#[test]
fn migration_fails_where_the_host_fails() {
    let vault = vault();
    let mut world = World::mounted();
    world.paths.push("/old".to_string());
    assert_eq!(
        world.drive(&vault, vault.migrate_entries("/old")),
        Err(VaultError::Io("cannot read directory".to_string()))
    );
    world.files.push(("/old".to_string(), texts(&["a.md"])));
    world.failing.push("copy".to_string());
    assert_eq!(
        world.drive(&vault, vault.migrate_entries("/old")),
        Err(VaultError::Io("disk full".to_string()))
    );
    let mut denied = World::mounted();
    denied.failing.push("mkdir".to_string());
    assert_eq!(
        denied.drive(&vault, vault.migrate_entries("/old")),
        Err(VaultError::Io("permission denied".to_string()))
    );
}

#[test]
fn reply_that_answers_another_request_is_refused() {
    let vault = vault();
    let (_, task) = task_of(vault.unmount());
    assert_eq!(result_of(vault.resume(task, Reply::Done)), Err(VaultError::Protocol));
    let (_, task) = task_of(vault.get_password_from_keychain());
    assert_eq!(result_of(vault.resume(task, Reply::Exists(true))), Err(VaultError::Protocol));
    let (_, task) = task_of(vault.migrate_entries("/old"));
    assert_eq!(
        result_of(vault.resume(task, Reply::Listed(Vec::new()))),
        Err(VaultError::Protocol)
    );
    let (_, task) = task_of(vault.mount_with_password("s"));
    assert_eq!(
        result_of(vault.resume(task, World::exited(true, "", ""))),
        Err(VaultError::Protocol)
    );
}

#[test]
fn host_failure_ends_any_task() {
    let vault = vault();
    let (_, task) = task_of(vault.unmount());
    assert_eq!(
        result_of(vault.resume(task, Reply::Failed("no such process".to_string()))),
        Err(VaultError::Io("no such process".to_string()))
    );
}

#[test]
fn stages_follow_one_another_in_creation() {
    let vault = vault();
    let (request, task) = task_of(vault.create_encrypted_volume_with("s".to_string()));
    assert_eq!(request, Request::MakeDirs("/Users/neo/.journal".to_string()));
    assert_eq!((task.operation(), task.stage()), (Operation::Create, Stage::MakingParent));
    let (_, task) = task_of(vault.resume(task, Reply::Done));
    assert_eq!(task.stage(), Stage::Imaging);
    let (request, task) = task_of(vault.resume(task, World::exited(true, "", "")));
    assert_eq!(request, Request::Probe("/Volumes/JournalVault".to_string()));
    assert_eq!(task.stage(), Stage::ProbingToAttach);
    let (_, task) = task_of(vault.resume(task, Reply::Exists(false)));
    assert_eq!(task.stage(), Stage::Attaching);
    let (request, task) = task_of(vault.resume(task, World::exited(true, "", "")));
    assert_eq!(request, Request::MakeDirs("/Volumes/JournalVault/entries".to_string()));
    assert_eq!(task.stage(), Stage::MakingEntries);
    let (_, task) = task_of(vault.resume(task, Reply::Done));
    assert_eq!(task.stage(), Stage::ProbingToDetach);
    let (_, task) = task_of(vault.resume(task, Reply::Exists(true)));
    assert_eq!(task.stage(), Stage::Detaching);
    let (_, task) = task_of(vault.resume(task, World::exited(false, "", "busy")));
    assert_eq!(task.stage(), Stage::Forcing);
    let (_, task) = task_of(vault.resume(task, World::exited(true, "", "")));
    assert_eq!((task.operation(), task.stage()), (Operation::Create, Stage::Storing));
    assert_eq!(result_of(vault.resume(task, World::exited(true, "", ""))), Ok(Outcome::Done));
}

#[test]
fn errors_say_what_failed() {
    assert_eq!(VaultError::Io("disk full".to_string()).message(), "disk full");
    assert_eq!(
        VaultError::Creation("no space".to_string()).message(),
        "Failed to create encrypted volume: no space"
    );
    assert_eq!(
        VaultError::Mount("bad passphrase".to_string()).message(),
        "Failed to mount volume: bad passphrase"
    );
    assert_eq!(
        VaultError::Unmount("busy".to_string()).message(),
        "Failed to unmount volume: busy"
    );
    assert_eq!(
        VaultError::Store("locked".to_string()).message(),
        "Failed to save password to keychain: locked"
    );
    assert_eq!(VaultError::NotFound.message(), "Password not found in keychain");
    assert_eq!(VaultError::NotMounted.message(), "Volume must be mounted before migration");
    assert_eq!(VaultError::Protocol.message(), "Reply does not answer the request");
}

#[test]
fn bytes_are_spelt_in_hexadecimal() {
    assert_eq!(hex_text(b""), "");
    assert_eq!(hex_text(b"hunter2"), "68756e74657232");
    assert_eq!(hex_text(&[0x00, 0x0f, 0x10, 0x9a, 0xff]), "000f109aff");
    assert_eq!(hex_text("pä ".as_bytes()), "70c3a420");
    let all: Vec<u8> = (0..=255).collect();
    let spelt = hex_text(&all);
    assert_eq!(spelt.len(), 512);
    for (index, byte) in all.iter().enumerate() {
        assert_eq!(spelt[2 * index..2 * index + 2], format!("{:02x}", byte));
    }
}

#[test]
fn bytes_stand_as_one_word() {
    assert_eq!(word_text(b""), "\"\"");
    assert_eq!(word_text(b"hunter2"), "68756e74657232");
    assert_eq!(word_text(b" "), "20");
    assert_eq!(word_text(b"\"\""), "2222");
}

#[test]
fn any_secret_is_stored_on_standard_input() {
    let vault = vault();
    let secrets =
        ["", "two words", "quo\"te 'x' \\", "pässwörd", "line\nbreak", " ", "-w x; rm", "\"\""];
    for secret in secrets {
        let mut world = World::new();
        world.stored = Some("earlier".to_string());
        assert_eq!(
            world.drive(&vault, vault.save_password_to_keychain(secret)),
            Ok(Outcome::Done)
        );
        assert_eq!(world.stored, Some(secret.to_string()));
        assert_eq!(world.ran.len(), 1);
        assert_eq!(world.ran[0].program, "security");
        assert_eq!(world.ran[0].args, texts(&["-i"]));
        let line = world.ran[0].stdin.clone().unwrap();
        assert_eq!(
            line,
            format!(
                "add-generic-password -a journal-tui -s JournalVault -X {} -U -T /usr/bin/security\n",
                word_text(secret.as_bytes())
            )
        );
        assert_eq!(line.split_whitespace().count(), 10);
        let step = vault.create_encrypted_volume_with(secret.to_string());
        let mut made = World::new();
        assert_eq!(made.drive(&vault, step), Ok(Outcome::Done));
        assert_eq!(made.stored, Some(secret.to_string()));
        assert_eq!(made.ran[0].stdin, Some(secret.to_string()));
    }
}

#[test]
fn empty_secret_is_stored_as_an_empty_word() {
    let vault = vault();
    let mut world = World::new();
    assert_eq!(world.drive(&vault, vault.save_password_to_keychain("")), Ok(Outcome::Done));
    assert_eq!(
        world.ran[0].stdin,
        Some(
            "add-generic-password -a journal-tui -s JournalVault -X \"\" -U -T /usr/bin/security\n"
                .to_string()
        )
    );
    assert_eq!(world.stored, Some(String::new()));
    world.failing.push("add-generic-password".to_string());
    assert_eq!(
        world.drive(&vault, vault.save_password_to_keychain("")),
        Err(VaultError::Store("add-generic-password failed".to_string()))
    );
}

#[test]
fn any_secret_mounts() {
    let vault = vault();
    let mut world = World::new();
    assert_eq!(world.drive(&vault, vault.mount_with_password("two words \"x\"")), Ok(Outcome::Done));
    assert_eq!(world.ran[0].stdin, Some("two words \"x\"\n".to_string()));
}

#[test]
fn no_operation_asks_for_more_than_nine_pieces_of_work() {
    let vault = vault();
    let mut world = World::new();
    world.failing.push("detach".to_string());
    assert_eq!(world.drive(&vault, vault.create_encrypted_volume()), Ok(Outcome::Done));
    assert_eq!(world.requests, 9);
    assert_eq!(
        world.verbs(),
        texts(&["create", "attach", "detach", "detach", "add-generic-password"])
    );
    let mut stored = World::new();
    stored.stored = Some("k3y".to_string());
    assert_eq!(stored.drive(&vault, vault.mount_with_keychain()), Ok(Outcome::Done));
    assert_eq!(stored.requests, 4);
}

#[test]
fn vault_of_a_told_home_lies_under_it() {
    let vault = VolumeManager::from_home(&Some("/Users/trinity".to_string())).unwrap();
    assert_eq!(vault.dmg_path(), "/Users/trinity/.journal/vault.dmg");
    assert_eq!(vault.mount_point(), "/Volumes/JournalVault");
}

#[test]
fn no_home_gives_no_vault() {
    assert!(VolumeManager::from_home(&None).is_none());
}
