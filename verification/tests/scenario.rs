use keystore::{listed_names, Action, Event, Keystore, KeystoreError, Progress, Store};
use std::path::{Path, PathBuf};

/// A file system in memory. New files get the mode `create_mode`, as a umask
/// would give it.
struct Disk {
    dirs: Vec<PathBuf>,
    files: Vec<(PathBuf, Vec<u8>, u32)>,
    create_mode: u32,
    modes_can_change: bool,
    log: Vec<String>,
}

fn disk(create_mode: u32) -> Disk {
    Disk {
        dirs: vec![PathBuf::from("/")],
        files: Vec::new(),
        create_mode,
        modes_can_change: true,
        log: Vec::new(),
    }
}

fn find(disk: &Disk, path: &Path) -> Option<usize> {
    disk.files.iter().position(|(at, _, _)| at == path)
}

fn put(disk: &mut Disk, path: &str, content: &[u8], mode: u32) {
    disk.files.push((PathBuf::from(path), content.to_vec(), mode));
}

fn perform(disk: &mut Disk, action: &Action) -> Event {
    match action {
        Action::CreateDirs { dir } => {
            disk.log.push(String::from("dirs"));
            for above in dir.ancestors() {
                if !disk.dirs.iter().any(|known| known == above) {
                    disk.dirs.push(above.to_path_buf());
                }
            }
            Event::Done
        }
        Action::WriteFile { path, content } => {
            disk.log.push(String::from("write"));
            let known = path.parent().map_or(false, |dir| disk.dirs.iter().any(|d| d == dir));
            if !known {
                return Event::Failed;
            }
            match find(disk, path) {
                Some(i) => disk.files[i].1 = content.clone(),
                None => disk.files.push((path.clone(), content.clone(), disk.create_mode)),
            }
            Event::Done
        }
        Action::ReadMode { path } => {
            disk.log.push(String::from("mode"));
            match find(disk, path) {
                Some(i) => Event::Mode(disk.files[i].2),
                None => Event::Failed,
            }
        }
        Action::SetMode { path, mode } => {
            disk.log.push(String::from("chmod"));
            match find(disk, path) {
                Some(i) if disk.modes_can_change => {
                    disk.files[i].2 = *mode;
                    Event::Done
                }
                _ => Event::Failed,
            }
        }
        Action::ReadFile { path } => {
            disk.log.push(String::from("read"));
            match find(disk, path) {
                Some(i) => Event::Content(disk.files[i].1.clone()),
                None => Event::Failed,
            }
        }
    }
}

fn drive(disk: &mut Disk, mut progress: Progress) -> Progress {
    let mut steps = 0;
    loop {
        match progress {
            Progress::Next(session, action) => {
                steps += 1;
                assert!(steps <= 8, "a session takes at most seven events");
                let event = perform(disk, &action);
                progress = session.step(event);
            }
            ended => return ended,
        }
    }
}

fn list(disk: &Disk, dir: &Path) -> Result<Vec<String>, KeystoreError> {
    let entries: Option<Vec<String>> = if disk.dirs.iter().any(|known| known == dir) {
        Some(
            disk.files
                .iter()
                .filter(|(path, _, _)| path.parent() == Some(dir))
                .map(|(path, _, _)| path.file_name().unwrap().to_string_lossy().into_owned())
                .collect(),
        )
    } else {
        None
    };
    listed_names(entries.as_ref())
}

fn store() -> Store {
    Store::at(PathBuf::from("/home/u/.local/share/dclient"))
}

fn sample(name: &str) -> Keystore {
    let mut keypair = [0u8; 64];
    for (i, byte) in keypair.iter_mut().enumerate() {
        *byte = (i as u8) ^ 0x5a;
    }
    Keystore { name: String::from(name), keypair }
}

#[test]
fn a_saved_record_loads_as_it_was() {
    let mut disk = disk(0o644);
    let record = sample("alice");
    let path = PathBuf::from("/work/out/alice.json");
    assert_eq!(drive(&mut disk, record.save(&path)), Progress::Saved(path.clone()));
    assert_eq!(drive(&mut disk, Keystore::load(&path, &store())), Progress::Loaded(record));
}

#[test]
fn a_saved_file_is_closed_to_group_and_others() {
    for create_mode in [0o644, 0o664, 0o666, 0o640, 0o604, 0o600, 0o777] {
        let mut disk = disk(create_mode);
        let path = PathBuf::from("/work/alice.json");
        assert_eq!(drive(&mut disk, sample("alice").save(&path)), Progress::Saved(path.clone()));
        let mode = disk.files[find(&disk, &path).unwrap()].2;
        assert_eq!(mode & 0o077, 0, "created with {:o}", create_mode);
    }
}

#[test]
fn a_save_that_cannot_protect_the_file_fails() {
    let mut disk = disk(0o644);
    disk.modes_can_change = false;
    let path = PathBuf::from("/work/alice.json");
    assert_eq!(
        drive(&mut disk, sample("alice").save(&path)),
        Progress::Failed(KeystoreError::PermissionEnforcement)
    );
}

#[test]
fn a_save_does_its_operations_in_order() {
    let mut disk = disk(0o644);
    let path = PathBuf::from("/work/alice.json");
    drive(&mut disk, sample("alice").save(&path));
    assert_eq!(disk.log, ["dirs", "write", "mode", "chmod"]);
    let mut disk = self::disk(0o600);
    drive(&mut disk, sample("alice").save(&path));
    assert_eq!(disk.log, ["dirs", "write", "mode"]);
}

#[test]
fn an_import_lands_at_the_canonical_path() {
    let record = sample("alice");
    let text = record.encode().unwrap();
    for source in ["/tmp/anywhere.json", "/mnt/usb/deep/down/key", "/alice"] {
        let mut disk = disk(0o644);
        put(&mut disk, source, &text, 0o644);
        let loaded = drive(&mut disk, Keystore::load(&PathBuf::from(source), &store()));
        assert_eq!(loaded, Progress::Loaded(sample("alice")));
        let canonical = store().file_path(&String::from("alice"));
        assert_eq!(canonical, PathBuf::from("/home/u/.local/share/dclient/keypairs/alice.json"));
        let stored = &disk.files[find(&disk, &canonical).unwrap()];
        assert_eq!(Keystore::decode(&stored.1), Ok(sample("alice")));
        assert_eq!(stored.1, text);
        assert_eq!(stored.2 & 0o077, 0);
        let source_mode = disk.files[find(&disk, Path::new(source)).unwrap()].2;
        assert_eq!(source_mode, 0o600);
    }
}

#[test]
fn an_import_of_a_compact_file_is_stored_in_the_indented_layout() {
    let numbers: Vec<String> = sample("alice").keypair.iter().map(|b| b.to_string()).collect();
    let compact = format!("{{\"keypair\":[{}],\"name\":\"alice\"}}", numbers.join(","));
    let mut disk = disk(0o600);
    put(&mut disk, "/tmp/in.json", compact.as_bytes(), 0o600);
    let loaded = drive(&mut disk, Keystore::load(&PathBuf::from("/tmp/in.json"), &store()));
    assert_eq!(loaded, Progress::Loaded(sample("alice")));
    let canonical = store().file_path(&String::from("alice"));
    let stored = &disk.files[find(&disk, &canonical).unwrap()];
    assert_eq!(stored.1, sample("alice").encode().unwrap());
}

#[test]
fn an_import_goes_on_when_the_source_cannot_be_narrowed() {
    let mut disk = disk(0o600);
    disk.modes_can_change = false;
    put(&mut disk, "/tmp/in.json", &sample("alice").encode().unwrap(), 0o644);
    let loaded = drive(&mut disk, Keystore::load(&PathBuf::from("/tmp/in.json"), &store()));
    assert_eq!(loaded, Progress::Loaded(sample("alice")));
    assert_eq!(disk.log, ["mode", "chmod", "read", "dirs", "write", "mode"]);
}

#[test]
fn a_corrupt_file_is_left_untouched_and_nothing_is_stored() {
    let numbers: Vec<String> = vec![String::from("1"); 63];
    let text = format!("{{\"name\":\"alice\",\"keypair\":[{}]}}", numbers.join(","));
    let mut disk = disk(0o600);
    put(&mut disk, "/tmp/in.json", text.as_bytes(), 0o600);
    let loaded = drive(&mut disk, Keystore::load(&PathBuf::from("/tmp/in.json"), &store()));
    assert_eq!(loaded, Progress::Failed(KeystoreError::Deserialization));
    assert_eq!(disk.files.len(), 1);
    assert_eq!(disk.files[0].1, text.as_bytes());
    assert_eq!(disk.log, ["mode", "read"]);
}

#[test]
fn a_missing_file_is_an_io_error() {
    let mut disk = disk(0o600);
    let loaded = drive(&mut disk, Keystore::load(&PathBuf::from("/tmp/none.json"), &store()));
    assert_eq!(loaded, Progress::Failed(KeystoreError::Io));
}

#[test]
fn two_saves_share_the_directory() {
    let mut disk = disk(0o644);
    for name in ["a", "b"] {
        let path = store().file_path(&String::from(name));
        assert_eq!(drive(&mut disk, sample(name).save(&path)), Progress::Saved(path));
    }
    let again = store().file_path(&String::from("a"));
    assert_eq!(drive(&mut disk, sample("a").save(&again)), Progress::Saved(again));
    assert_eq!(disk.files.len(), 2);
}

#[test]
fn the_listing_names_the_saved_records() {
    let mut disk = disk(0o644);
    assert_eq!(list(&disk, &store().keypairs_path()), Err(KeystoreError::Io));
    assert!(!disk.dirs.contains(&store().keypairs_path()));
    for name in ["a", "b"] {
        let path = store().file_path(&String::from(name));
        drive(&mut disk, sample(name).save(&path));
    }
    let mut names = list(&disk, &store().keypairs_path()).unwrap();
    names.sort();
    assert_eq!(names, ["a", "b"]);
}

#[test]
fn generate_save_and_import_again() {
    let mut disk = disk(0o644);
    let canonical = PathBuf::from("/home/u/.local/share/dclient/keypairs/bob.json");
    let saved = drive(&mut disk, store().generate_and_save(String::from("bob")));
    assert_eq!(saved, Progress::Saved(canonical.clone()));
    let written = disk.files[find(&disk, &canonical).unwrap()].1.clone();
    assert!(written.starts_with(b"{\n  \"name\": \"bob\",\n  \"keypair\": [\n"));
    match drive(&mut disk, Keystore::load(&canonical, &store())) {
        Progress::Loaded(record) => {
            assert_eq!(record.name, "bob");
            assert_eq!(record.encode().unwrap(), written);
        }
        other => panic!("unexpected end: {:?}", other),
    }
    assert_eq!(disk.files.len(), 1);
    assert_eq!(disk.files[find(&disk, &canonical).unwrap()].1, written);
    assert_eq!(list(&disk, &store().keypairs_path()), Ok(vec![String::from("bob")]));
}
