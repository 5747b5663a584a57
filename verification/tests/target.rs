use static_site_deploy::error::{Cause, Error, ErrorKind};
use static_site_deploy::target::{check_domain_name, fqdn, site_url, stack_name};

#[test]
fn fqdn_is_the_zone_or_host_dot_zone() {
    assert_eq!(fqdn("", "example.com"), "example.com");
    assert_eq!(fqdn("www", "example.com"), "www.example.com");
}

#[test]
fn stack_name_is_derived_from_the_fqdn() {
    assert_eq!(stack_name("www.example.com"), "StaticSite--www-example-com");
    assert_eq!(stack_name("example.com"), "StaticSite--example-com");
    assert_eq!(stack_name("www.example.com"), stack_name("www.example.com"));
    assert_ne!(stack_name("www.example.com"), stack_name("example.com"));
}

#[test]
fn a_hyphen_is_written_as_two() {
    assert_eq!(stack_name("a-b.com"), "StaticSite--a--b-com");
    assert_eq!(stack_name("my--site.example.com"), "StaticSite--my----site-example-com");
    assert_eq!(stack_name(""), "StaticSite--");
}

#[test]
fn different_domain_names_never_share_a_stack_name() {
    assert_ne!(stack_name("a.b-c"), stack_name("a-b.c"));
    assert_ne!(stack_name(&fqdn("a", "b.com")), stack_name(&fqdn("", "a-b.com")));
    let names = ["a.b.com", "a-b.com", "a--b.com", "ab.com", "a.b-com.org", "a-b.com.org"];
    for first in names {
        assert!(check_domain_name(first));
        for second in names {
            assert_eq!(stack_name(first) == stack_name(second), first == second);
        }
    }
}

#[test]
fn domain_names_have_whole_labels() {
    for good in ["example.com", "www.example.com", "a-b.example.com", "a--b.c", "localhost", ""] {
        assert!(check_domain_name(good), "{:?}", good);
    }
    for bad in [
        ".", "-", ".com", "com.", "a..b", "-a.com", "a-.com", "a.-b", "a.b-", "a-", "..", "a.b.",
    ] {
        assert!(!check_domain_name(bad), "{:?}", bad);
    }
}

#[test]
fn site_url_is_https() {
    assert_eq!(site_url("www.example.com"), "https://www.example.com");
}

#[test]
fn every_error_has_its_message() {
    let source = Cause { message: "m".to_string(), detail: "d".to_string() };
    let cases: Vec<(Error, ErrorKind, &str)> = vec![
        (Error::StackOutputNotFound, ErrorKind::StackOutputNotFound, "Stack output not found"),
        (
            Error::UnusableStackStatus,
            ErrorKind::UnusableStackStatus,
            "Encountered unusuable stack status",
        ),
        (
            Error::ZoneNotFound,
            ErrorKind::ZoneNotFound,
            "No hosted zone found for the domain zone",
        ),
        (
            Error::UnexpectedEvent,
            ErrorKind::UnexpectedEvent,
            "Received an answer that was not asked for",
        ),
        (
            Error::UpdateStackError { source: source.clone() },
            ErrorKind::UpdateStackError,
            "UpdateStack failed",
        ),
        (
            Error::ListHostedZonesByNameError { source: source.clone() },
            ErrorKind::ListHostedZonesByNameError,
            "ListHostedZonesByName failed",
        ),
        (
            Error::CreateStackError { source: source.clone() },
            ErrorKind::CreateStackError,
            "CreateStack failed",
        ),
        (
            Error::DescribeStacksError { source: source.clone() },
            ErrorKind::DescribeStacksError,
            "DescribeStacks failed",
        ),
        (
            Error::GetCallerIdentityError { source: source.clone() },
            ErrorKind::GetCallerIdentityError,
            "GetCallerIdentity failed",
        ),
        (
            Error::PutObjectError { source: source.clone() },
            ErrorKind::PutObjectError,
            "PutObject failed",
        ),
        (
            Error::CreateInvalidationError { source: source.clone() },
            ErrorKind::CreateInvalidationError,
            "CreateInvalidation failed",
        ),
        (
            Error::GetInvalidationError { source: source.clone() },
            ErrorKind::GetInvalidationError,
            "GetInvalidation failed",
        ),
        (
            Error::UploadStreamError { source: source.clone() },
            ErrorKind::UploadStreamError,
            "Upload stream error",
        ),
        (
            Error::TracingConfigurationError { source: source.clone() },
            ErrorKind::TracingConfigurationError,
            "Couldn't configure tracing provider",
        ),
        (Error::IOError { source: source.clone() }, ErrorKind::IOError, "IO Error"),
        (Error::TimedOut { source: source.clone() }, ErrorKind::TimedOut, "Timed out"),
    ];
    for (error, kind, message) in cases {
        assert_eq!(error.kind(), kind);
        assert_eq!(error.message(), message);
        assert_eq!(kind.message(), message);
        assert_eq!(error.duplicate(), error);
        let sourceless = matches!(
            kind,
            ErrorKind::StackOutputNotFound
                | ErrorKind::UnusableStackStatus
                | ErrorKind::ZoneNotFound
                | ErrorKind::UnexpectedEvent
        );
        if sourceless {
            assert_eq!(error.source(), None);
        } else {
            assert_eq!(error.source(), Some(&source));
        }
    }
    assert_eq!(source.duplicate(), source);
}
