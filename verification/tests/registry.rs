use arrow_embed::error::EmbedError;
use arrow_embed::registry::Registry;

#[test]
fn a_new_registry_is_empty() {
    let mut registry: Registry<u32> = Registry::new();
    assert!(!registry.is_initialized());
    assert_eq!(registry.instance_mut().err(), Some(EmbedError::NotInitialized));
}

#[test]
fn a_failed_first_init_leaves_the_registry_empty() {
    let mut registry: Registry<u32> = Registry::new();
    assert_eq!(registry.install(Err(EmbedError::ModelLoad)), Err(EmbedError::ModelLoad));
    assert!(!registry.is_initialized());
    assert_eq!(registry.instance_mut().err(), Some(EmbedError::NotInitialized));
}

#[test]
fn a_successful_init_installs_the_instance() {
    let mut registry: Registry<u32> = Registry::new();
    assert_eq!(registry.install(Ok(7)), Ok(()));
    assert!(registry.is_initialized());
    assert_eq!(registry.instance_mut().map(|x| *x), Ok(7));
}

#[test]
fn a_failed_init_keeps_the_earlier_instance() {
    let mut registry: Registry<String> = Registry::new();
    assert_eq!(registry.install(Ok("good".to_string())), Ok(()));
    assert_eq!(registry.install(Err(EmbedError::ModelLoad)), Err(EmbedError::ModelLoad));
    assert_eq!(registry.install(Err(EmbedError::Inference)), Err(EmbedError::Inference));
    assert!(registry.is_initialized());
    assert_eq!(registry.instance_mut().map(|x| x.clone()), Ok("good".to_string()));
}

#[test]
fn a_later_successful_init_replaces_the_instance() {
    let mut registry: Registry<u32> = Registry::new();
    assert_eq!(registry.install(Ok(1)), Ok(()));
    assert_eq!(registry.install(Ok(2)), Ok(()));
    assert_eq!(registry.instance_mut().map(|x| *x), Ok(2));
}

#[test]
fn the_registry_keeps_what_a_borrower_leaves() {
    let mut registry: Registry<Vec<u32>> = Registry::new();
    assert_eq!(registry.install(Ok(vec![1])), Ok(()));
    registry.instance_mut().unwrap().push(2);
    registry.instance_mut().unwrap().push(3);
    assert_eq!(registry.instance_mut().map(|x| x.clone()), Ok(vec![1, 2, 3]));
}
