use plot_helper::key::{KeyType, SerieKey};

#[derive(Clone, Copy, Debug, PartialEq, Eq, Hash)]
enum TestKey {
    A,
    B,
    C,
}

impl TestKey {
    fn key_type(&self) -> KeyType {
        match self {
            TestKey::A => KeyType::Numeric,
            TestKey::B => KeyType::String,
            TestKey::C => KeyType::Object,
        }
    }
}

impl SerieKey for TestKey {
    fn get_display_name(&self) -> String {
        match self {
            TestKey::A => "A".to_string(),
            TestKey::B => "B".to_string(),
            TestKey::C => "C".to_string(),
        }
    }

    fn is_numeric(&self) -> bool {
        self.key_type().is_numeric()
    }

    fn is_string(&self) -> bool {
        self.key_type().is_string()
    }

    fn is_object(&self) -> bool {
        self.key_type().is_object()
    }
}

fn check_test_key() {
    let key = TestKey::A;
    assert_eq!(key.get_display_name(), "A");
    assert_eq!(key.is_numeric(), true);
    assert_eq!(key.is_string(), false);
    assert_eq!(key.is_object(), false);

    let key = TestKey::B;
    assert_eq!(key.get_display_name(), "B");
    assert_eq!(key.is_numeric(), false);
    assert_eq!(key.is_string(), true);
    assert_eq!(key.is_object(), false);

    let key = TestKey::C;

    assert_eq!(key.get_display_name(), "C");
    assert_eq!(key.is_numeric(), false);
    assert_eq!(key.is_string(), false);
    assert_eq!(key.is_object(), true);
}

#[test]
fn plottable_test_generate_plot_key() {
    check_test_key();
}

#[test]
fn key_test_generate_plot_key() {
    check_test_key();
}

#[test]
fn key_type_tags_are_exclusive() {
    for kt in [KeyType::Numeric, KeyType::String, KeyType::Object] {
        let n = [kt.is_numeric(), kt.is_string(), kt.is_object()].iter().filter(|b| **b).count();
        assert_eq!(n, 1);
    }
}
