use rand::{Rng, RngCore};
use szafka::Szafka;

fn make_value(name: &str, id: u64) -> serde_json::Value {
    let mut map = serde_json::Map::new();
    map.insert(
        String::from("name"),
        serde_json::Value::String(String::from(name)),
    );
    map.insert(
        String::from("id"),
        serde_json::Value::Number(serde_json::Number::from(id)),
    );
    serde_json::Value::Object(map)
}

fn random_value() -> serde_json::Value {
    let mut rng = rand::thread_rng();
    let mut name = [0u8; 16];
    rng.fill_bytes(&mut name);
    make_value(&hex::encode(name), rng.gen())
}

fn fresh_slot(path: &str) -> Szafka<serde_json::Value> {
    let szafka = Szafka::new(String::from(path));
    szafka.remove().unwrap();
    szafka
}

fn teardown(szafka: Szafka<serde_json::Value>) {
    szafka.remove().unwrap()
}

#[test]
fn sync_no_parent() {
    let szafka = Szafka::new(String::from("/tmp/szafka/subdir/file"));
    let something = random_value();
    szafka.save(&something).unwrap();
    assert!(szafka.has_data());
    assert_eq!(szafka.get().unwrap(), something);

    teardown(szafka)
}

#[test]
fn sync_get() {
    let szafka = fresh_slot("/tmp/szafka-test-get");
    let something = random_value();
    szafka.save(&something).unwrap();
    assert!(szafka.has_data());
    assert_eq!(szafka.get().unwrap(), something);

    teardown(szafka)
}

#[test]
fn sync_remove() {
    let szafka = fresh_slot("/tmp/szafka-test-remove");
    let something = random_value();
    szafka.save(&something).unwrap();
    assert!(szafka.has_data());
    szafka.remove().unwrap();
    szafka.remove().unwrap();
    assert!(!szafka.has_data());
    teardown(szafka)
}

#[test]
fn sync_exists() {
    let szafka = fresh_slot("/tmp/szafka-test-exists");
    let something = random_value();
    szafka.save(&something).unwrap();
    assert!(szafka.has_data());

    teardown(szafka)
}
