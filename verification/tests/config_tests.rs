use bridge::catalog::Catalog;
use bridge::config::{select_url, Notebook, AUD};
use bridge::errors::GatewayError;

#[test]
fn url_selection() {
    assert_eq!(
        select_url("mongodb://prod".to_string(), "mongodb://localhost".to_string(), false),
        "mongodb://prod"
    );
    assert_eq!(
        select_url("mongodb://prod".to_string(), "mongodb://localhost".to_string(), true),
        "mongodb://localhost"
    );
}

#[test]
fn audience_value() {
    assert_eq!(AUD, "openad-user");
}

#[test]
fn notebook_entry_shape() {
    let nb = Notebook {
        url: "https://workbench.internal".to_string(),
        pull_policy: "IfNotPresent".to_string(),
        working_dir: Some("/opt/app-root/src".to_string()),
        volume_mnt_path: None,
        env: None,
        secret: None,
        command: None,
        args: None,
        start_up_url: Some("/lab/tree/start_menu.ipynb".to_string()),
        max_idle_time: None,
    };
    assert_eq!(nb.pull_policy, "IfNotPresent");
    assert_eq!(nb.working_dir.as_deref(), Some("/opt/app-root/src"));
    assert_eq!(nb.start_up_url.as_deref(), Some("/lab/tree/start_menu.ipynb"));
}

#[test]
fn catalog_lookup_exact_match() {
    let mut c = Catalog::new();
    c.register("workbench".to_string(), "https://backend.example".to_string());
    c.register("mirror".to_string(), "https://mirror.example".to_string());
    assert_eq!(c.get_resource(&"workbench".to_string()).unwrap(), "https://backend.example");
    assert_eq!(c.get_resource(&"mirror".to_string()).unwrap(), "https://mirror.example");
    // lookup is case-sensitive, exact-match
    assert_eq!(
        c.get_resource(&"Workbench".to_string()).unwrap_err(),
        GatewayError::ResourceNotFound
    );
}
