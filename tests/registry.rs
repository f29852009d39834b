use magnus::registry::{ContentDefinition, ContentRegistry, RegistryError};

fn s(x: &str) -> String {
    x.to_string()
}

#[test]
fn register_then_lookup_and_list() {
    let mut r = ContentRegistry::new();
    assert_eq!(r.register(ContentDefinition::Melee { id: s("sword") }), Ok(()));
    assert_eq!(r.register(ContentDefinition::Entity { id: s("wolf"), icon: 'w' }), Ok(()));
    assert!(matches!(r.lookup(&s("wolf")), Some(ContentDefinition::Entity { icon: 'w', .. })));
    assert!(r.lookup(&s("bear")).is_none());
    let ids: Vec<String> = r.list().iter().map(|d| d.id().clone()).collect();
    assert_eq!(ids, vec![s("sword"), s("wolf")]);
}

#[test]
fn duplicate_id_is_refused_across_kinds() {
    let mut r = ContentRegistry::new();
    assert_eq!(r.register(ContentDefinition::Entity { id: s("x"), icon: 'a' }), Ok(()));
    assert_eq!(
        r.register(ContentDefinition::Melee { id: s("x") }),
        Err(RegistryError::Duplicate)
    );
    assert_eq!(r.list().len(), 1);
    assert!(matches!(r.lookup(&s("x")), Some(ContentDefinition::Entity { icon: 'a', .. })));
}

#[test]
fn empty_id_is_invalid() {
    let mut r = ContentRegistry::new();
    assert_eq!(
        r.register(ContentDefinition::Addon { id: s(""), description: s("d") }),
        Err(RegistryError::InvalidDefinition)
    );
    assert!(r.list().is_empty());
}
