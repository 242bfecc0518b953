use mcdevkit::resolver::PaperApiResponse;
use mcdevkit::resolver::ResolveError;
use mcdevkit::resolver::paper_get_download_link;
use mcdevkit::resolver::resolve_download_url;
use mcdevkit::resolver::resolve_error_message;
use mcdevkit::server::Software;

fn sample_response() -> PaperApiResponse {
    PaperApiResponse {
        latest: String::from("1.20"),
        versions: vec![(String::from("1.20"), String::from("http://x/a.jar"))],
    }
}

#[test]
fn latest_is_used_when_no_version_is_requested() {
    let resp = sample_response();
    let url = paper_get_download_link(&resp, None).unwrap();
    assert_eq!(url, String::from("http://x/a.jar"));
}

#[test]
fn explicit_listed_version_resolves() {
    let resp = sample_response();
    let version = String::from("1.20");
    let url = paper_get_download_link(&resp, Some(&version)).unwrap();
    assert_eq!(url, String::from("http://x/a.jar"));
}

#[test]
fn unlisted_version_is_a_lookup_error_naming_it() {
    let resp = sample_response();
    let version = String::from("9.9");
    let err = paper_get_download_link(&resp, Some(&version)).unwrap_err();
    let ResolveError::VersionNotFound(missing) = &err;
    assert_eq!(*missing, String::from("9.9"));
    assert_eq!(
        resolve_error_message(&err),
        String::from("Version 9.9 not found in API response.")
    );
}

#[test]
fn latest_absent_from_table_is_a_lookup_error() {
    let resp = PaperApiResponse {
        latest: String::from("1.21"),
        versions: vec![(String::from("1.20"), String::from("http://x/a.jar"))],
    };
    let err = paper_get_download_link(&resp, None).unwrap_err();
    let ResolveError::VersionNotFound(missing) = &err;
    assert_eq!(*missing, String::from("1.21"));
}

#[test]
fn first_matching_pair_wins() {
    let resp = PaperApiResponse {
        latest: String::from("1.20"),
        versions: vec![
            (String::from("1.19"), String::from("http://x/old.jar")),
            (String::from("1.20"), String::from("http://x/a.jar")),
            (String::from("1.20"), String::from("http://x/dup.jar")),
        ],
    };
    let url = paper_get_download_link(&resp, None).unwrap();
    assert_eq!(url, String::from("http://x/a.jar"));
}

#[test]
fn resolver_dispatches_on_the_software_variant() {
    let resp = sample_response();
    let url = resolve_download_url(Software::Paper, &resp, None).unwrap();
    assert_eq!(url, String::from("http://x/a.jar"));
}
