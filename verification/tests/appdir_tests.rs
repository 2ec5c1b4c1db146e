use singularity_llm::appdir::default_app_id;
use singularity_llm::appdir::join_path;
use singularity_llm::appdir::resolve_app_dir;
use singularity_llm::appdir::runtime_dir;
use singularity_llm::builder::Builder;
use singularity_llm::error::ArchiveDownloadError;
use singularity_llm::error::BetterIoError;

#[test]
fn paths_join_with_a_separator() {
    assert_eq!(join_path("/home/user/.cache", "app"), "/home/user/.cache/app");
    assert_eq!(runtime_dir("/data/app"), "/data/app/ollama");
    assert_eq!(default_app_id(), "com.ghuba.singularity.application");
}

#[test]
fn an_explicit_root_is_used_as_given() {
    let r = resolve_app_dir(Some(String::from("/var/cache")), "my.app");
    assert_eq!(r, Some(String::from("/var/cache/my.app")));
}

#[test]
fn without_a_root_the_platform_data_dir_is_extended() {
    // Whether the platform defines a data directory depends on the host
    // environment; when it does, the resolved path is namespaced by the
    // application identifier.
    if let Some(p) = resolve_app_dir(None, "my.app") {
        assert!(p.ends_with("/my.app"), "got {:?}", p);
        assert!(p.len() > "/my.app".len());
    }
}

#[test]
fn builder_keeps_its_cache_directory() {
    let b = Builder::new(String::from("/var/cache/models"));
    assert_eq!(b.cache_dir, "/var/cache/models");
}

#[test]
fn io_error_message_names_path_and_operation() {
    let e = BetterIoError::new(
        String::from("/tmp/f"),
        String::from("creating file"),
        String::from("denied"),
    );
    assert_eq!(e.message(), "Failed IO for: /tmp/f during creating file. Reason: denied");
}

#[test]
fn download_error_messages_cover_each_variant() {
    let io = ArchiveDownloadError::Io(BetterIoError::new(
        String::from("/tmp/f"),
        String::from("flushing"),
        String::from("denied"),
    ));
    assert_eq!(io.message(), "Failed IO for: /tmp/f during flushing. Reason: denied");
    let net = ArchiveDownloadError::Network(String::from("timed out"));
    assert_eq!(net.message(), "Network error. Reason: timed out");
    let req = ArchiveDownloadError::FailedRequest;
    assert_eq!(req.message(), "Network error. Failed to request file");
}
