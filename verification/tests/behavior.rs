use szafka::flow::{
    get_step, remove_step, save_start, save_step, GetStage, IoOutcome, RemoveStage, SaveStage,
};
use szafka::{AsyncSzafka, Error, Szafka};

fn make_value(name: &str, id: u64) -> serde_json::Value {
    let mut map = serde_json::Map::new();
    map.insert(
        String::from("name"),
        serde_json::Value::String(String::from(name)),
    );
    map.insert(
        String::from("id"),
        serde_json::Value::Number(serde_json::Number::from(id)),
    );
    serde_json::Value::Object(map)
}

fn fresh_slot(path: &str) -> Szafka<serde_json::Value> {
    let szafka = Szafka::new(String::from(path));
    szafka.remove().unwrap();
    szafka
}

#[test]
fn scenario_full_lifecycle() {
    let szafka = fresh_slot("/tmp/x/y/z");
    let value = make_value("John", 1000);
    szafka.save(&value).unwrap();
    assert!(std::path::Path::new("/tmp/x/y").is_dir());
    assert_eq!(szafka.get().unwrap(), value);
    assert!(szafka.has_data());
    szafka.remove().unwrap();
    assert!(!szafka.has_data());
}

#[test]
fn exists_lifecycle() {
    let szafka = fresh_slot("/tmp/szafka-test-lifecycle");
    assert!(!szafka.has_data());
    szafka.save(&make_value("a", 1)).unwrap();
    assert!(szafka.has_data());
    szafka.remove().unwrap();
    assert!(!szafka.has_data());
}

#[test]
fn remove_missing_twice_succeeds() {
    let szafka = fresh_slot("/tmp/szafka-test-remove-missing");
    assert!(!szafka.has_data());
    szafka.remove().unwrap();
    szafka.remove().unwrap();
    assert!(!szafka.has_data());
}

#[test]
fn save_overwrites_previous_value() {
    let szafka = fresh_slot("/tmp/szafka-test-overwrite");
    let first = make_value("first", 1);
    let second = make_value("second", 2);
    szafka.save(&first).unwrap();
    szafka.save(&second).unwrap();
    assert_eq!(szafka.get().unwrap(), second);
    szafka.remove().unwrap();
}

#[test]
fn get_missing_is_distinct_from_corrupt() {
    let szafka = fresh_slot("/tmp/szafka-test-corrupt");
    let missing = szafka.get().unwrap_err();
    assert!(matches!(missing, Error::OpenFileError(_)));

    fs_err::write("/tmp/szafka-test-corrupt", b"this is not structured text").unwrap();
    let corrupt = szafka.get().unwrap_err();
    assert!(matches!(corrupt, Error::DeserializeError(_)));
    szafka.remove().unwrap();
}

#[test]
fn get_wrong_shape_is_deserialize_error() {
    let writer = fresh_slot("/tmp/szafka-test-shape");
    writer.save(&make_value("a", 1)).unwrap();
    let reader: Szafka<u64> = Szafka::new(String::from("/tmp/szafka-test-shape"));
    let err = reader.get().unwrap_err();
    assert!(matches!(err, Error::DeserializeError(_)));
    writer.remove().unwrap();
}

#[test]
fn save_unencodable_is_serialize_error() {
    let szafka: Szafka<std::collections::HashMap<Vec<u8>, u8>> =
        Szafka::new(String::from("/tmp/szafka-test-unencodable"));
    let mut payload = std::collections::HashMap::new();
    payload.insert(vec![1u8, 2u8], 3u8);
    let err = szafka.save(&payload).unwrap_err();
    assert!(matches!(err, Error::SerializeError(_)));
    assert!(!szafka.has_data());
}

#[test]
fn save_under_file_is_create_parent_error() {
    let blocker = fresh_slot("/tmp/szafka-test-blocker");
    blocker.save(&make_value("b", 2)).unwrap();
    let szafka = Szafka::new(String::from("/tmp/szafka-test-blocker/sub/x"));
    let err = szafka.save(&make_value("c", 3)).unwrap_err();
    assert!(matches!(err, Error::CreateParentError(_)));
    blocker.remove().unwrap();
}

#[test]
fn save_onto_directory_is_open_file_error() {
    let inner = fresh_slot("/tmp/szafka-test-dirtrap/inner");
    inner.save(&make_value("d", 4)).unwrap();
    let szafka = Szafka::new(String::from("/tmp/szafka-test-dirtrap"));
    let err = szafka.save(&make_value("e", 5)).unwrap_err();
    assert!(matches!(err, Error::OpenFileError(_)));
    inner.remove().unwrap();
}

#[test]
fn remove_directory_is_remove_file_error() {
    let inner = fresh_slot("/tmp/szafka-test-rmdir/inner");
    inner.save(&make_value("f", 6)).unwrap();
    let szafka: Szafka<serde_json::Value> = Szafka::new(String::from("/tmp/szafka-test-rmdir"));
    assert!(szafka.has_data());
    let err = szafka.remove().unwrap_err();
    assert!(matches!(err, Error::RemoveFileError(_)));
    inner.remove().unwrap();
}

#[test]
fn flush_is_removal_and_idempotent() {
    let szafka = fresh_slot("/tmp/szafka-test-flush");
    szafka.flush().unwrap();
    szafka.save(&make_value("i", 9)).unwrap();
    assert!(szafka.has_data());
    szafka.flush().unwrap();
    szafka.flush().unwrap();
    assert!(!szafka.has_data());
}

#[test]
fn parent_of_locations() {
    assert_eq!(
        szafka::paths::parent_of("/tmp/a/b"),
        Some(String::from("/tmp/a"))
    );
    assert_eq!(szafka::paths::parent_of("/file"), Some(String::from("/")));
    assert_eq!(szafka::paths::parent_of("plain"), None);
    assert_eq!(szafka::paths::parent_of("/"), None);
    assert_eq!(szafka::paths::parent_of(""), None);
    assert_eq!(
        szafka::paths::parent_of("a/trailing/"),
        Some(String::from("a/trailing"))
    );
}

#[test]
fn save_flow_runs_its_steps_in_order() {
    let stage = save_start("/tmp/q/r", String::from("enc"));
    assert!(
        matches!(stage, SaveStage::ProbeParent { ref parent, ref text } if parent == "/tmp/q" && text == "enc")
    );
    let stage = save_step(stage, IoOutcome::Present(false));
    assert!(
        matches!(stage, SaveStage::MakeParent { ref parent, ref text } if parent == "/tmp/q" && text == "enc")
    );
    let stage = save_step(stage, IoOutcome::Done);
    assert!(matches!(stage, SaveStage::OpenTarget { ref text } if text == "enc"));
    let stage = save_step(stage, IoOutcome::Done);
    assert!(
        matches!(stage, SaveStage::TruncateTarget { ref text, len } if text == "enc" && len == 0)
    );
    let stage = save_step(stage, IoOutcome::Done);
    assert!(matches!(stage, SaveStage::WriteTarget { ref text } if text == "enc"));
    let stage = save_step(stage, IoOutcome::Done);
    assert!(matches!(stage, SaveStage::Settled(Ok(()))));
}

#[test]
fn save_flow_skips_present_parent() {
    let stage = save_step(
        SaveStage::ProbeParent {
            parent: String::from("/tmp"),
            text: String::from("enc"),
        },
        IoOutcome::Present(true),
    );
    assert!(matches!(stage, SaveStage::OpenTarget { ref text } if text == "enc"));
    assert!(matches!(
        save_start("bare", String::from("enc")),
        SaveStage::OpenTarget { ref text } if text == "enc"
    ));
}

#[test]
fn flow_failures_map_to_their_own_variants() {
    let failed = |detail: &str| IoOutcome::Failed(String::from(detail));
    let enc = || String::from("enc");
    assert!(matches!(
        save_step(SaveStage::MakeParent { parent: String::from("/p"), text: enc() }, failed("m")),
        SaveStage::Settled(Err(Error::CreateParentError(d))) if d == "m"
    ));
    assert!(matches!(
        save_step(SaveStage::OpenTarget { text: enc() }, failed("m")),
        SaveStage::Settled(Err(Error::OpenFileError(d))) if d == "m"
    ));
    assert!(matches!(
        save_step(SaveStage::TruncateTarget { text: enc(), len: 0 }, failed("m")),
        SaveStage::Settled(Err(Error::ChangeLengthError(d))) if d == "m"
    ));
    assert!(matches!(
        save_step(SaveStage::WriteTarget { text: enc() }, failed("m")),
        SaveStage::Settled(Err(Error::WriteFileError(d))) if d == "m"
    ));
    assert!(matches!(
        get_step(GetStage::OpenTarget, failed("m")),
        GetStage::Settled(Err(Error::OpenFileError(d))) if d == "m"
    ));
    assert!(matches!(
        get_step(GetStage::ReadTarget, failed("m")),
        GetStage::Settled(Err(Error::DeserializeError(d))) if d == "m"
    ));
    assert!(matches!(
        remove_step(RemoveStage::DeleteTarget, failed("m")),
        RemoveStage::Settled(Err(Error::RemoveFileError(d))) if d == "m"
    ));
}

#[test]
fn get_flow_reads_then_settles_with_text() {
    let stage = get_step(GetStage::OpenTarget, IoOutcome::Done);
    assert!(matches!(stage, GetStage::ReadTarget));
    let stage = get_step(stage, IoOutcome::Text(String::from("42")));
    assert!(matches!(stage, GetStage::Settled(Ok(t)) if t == "42"));
}

#[test]
fn remove_flow_treats_absent_as_success() {
    assert!(matches!(
        remove_step(RemoveStage::ProbeTarget, IoOutcome::Present(false)),
        RemoveStage::Settled(Ok(()))
    ));
    assert!(matches!(
        remove_step(RemoveStage::ProbeTarget, IoOutcome::Present(true)),
        RemoveStage::DeleteTarget
    ));
    assert!(matches!(
        remove_step(RemoveStage::DeleteTarget, IoOutcome::Done),
        RemoveStage::Settled(Ok(()))
    ));
}

#[test]
fn facades_share_one_backing_file() {
    let blocking = fresh_slot("/tmp/szafka-test-facades");
    let suspending: AsyncSzafka<serde_json::Value> =
        AsyncSzafka::new(String::from("/tmp/szafka-test-facades"));
    assert!(!suspending.has_data());
    blocking.save(&make_value("g", 7)).unwrap();
    assert!(suspending.has_data());
    blocking.remove().unwrap();
    assert!(!suspending.has_data());
}

#[test]
fn cloned_handle_is_same_slot() {
    let szafka = fresh_slot("/tmp/szafka-test-clone");
    let twin = szafka.clone();
    szafka.save(&make_value("h", 8)).unwrap();
    assert!(twin.has_data());
    assert_eq!(twin.get().unwrap(), make_value("h", 8));
    twin.remove().unwrap();
    assert!(!szafka.has_data());
}
