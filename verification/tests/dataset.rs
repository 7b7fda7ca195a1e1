use zfs_backend::dataset::{is_valid_dataset_component, is_valid_dataset_path};
use zfs_backend::Error;

#[test]
fn dataset_name_validation() {
    assert!(is_valid_dataset_component("pool-1").is_ok());
    assert!(is_valid_dataset_component("0af5efaa-8b09-4a4f-91d2-49a83f7f75e5").is_ok());
    assert!(is_valid_dataset_component("a_b.c:d").is_ok());
    assert!(is_valid_dataset_component("").is_err());
    assert!(is_valid_dataset_component("-leading").is_err());
    assert!(is_valid_dataset_component("has space").is_err());
    assert!(is_valid_dataset_component("has/slash").is_err());

    assert!(is_valid_dataset_path("tank").is_ok());
    assert!(is_valid_dataset_path("tank/data").is_ok());
    assert!(is_valid_dataset_path("tank/data/nested").is_ok());
    assert!(is_valid_dataset_path("").is_err());
    assert!(is_valid_dataset_path("/dev/sda").is_err());
    assert!(is_valid_dataset_path("tank//data").is_err());
    assert!(is_valid_dataset_path("aio:///dev/sda").is_err());
}

#[test]
fn dataset_name_errors() {
    let rule = "must be [a-zA-Z0-9][a-zA-Z0-9_.:-]*".to_string();
    assert_eq!(
        is_valid_dataset_component("é"),
        Err(Error::InvalidName {
            name: "é".to_string(),
            error: rule.clone()
        })
    );
    assert_eq!(
        is_valid_dataset_path(""),
        Err(Error::InvalidName {
            name: "".to_string(),
            error: "must not be empty".to_string()
        })
    );
    // The first component which is not valid is named.
    assert_eq!(
        is_valid_dataset_path("tank/_a/_b"),
        Err(Error::InvalidName {
            name: "_a".to_string(),
            error: rule
        })
    );
}
