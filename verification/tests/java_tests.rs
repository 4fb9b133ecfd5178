use shardxl::auth::Platform;
use shardxl::java::{c_java_executable, java_executable, java_version_report, parse_java_version};

#[test]
fn version_from_openjdk_output() {
    let out = "openjdk version \"21.0.1\" 2023-10-17\nOpenJDK Runtime Environment";
    assert_eq!(parse_java_version(out), "21.0.1");
    assert_eq!(parse_java_version("java version \"1.8.0_381\"\n"), "1.8.0_381");
}

#[test]
fn version_unknown_without_two_quotes() {
    assert_eq!(parse_java_version(""), "Unknown");
    assert_eq!(parse_java_version("no quotes here"), "Unknown");
    assert_eq!(parse_java_version("one \" quote"), "Unknown");
    assert_eq!(parse_java_version("\"\""), "");
}

#[test]
fn version_with_non_ascii_text() {
    assert_eq!(parse_java_version("versión «x» \"17.0.2\" ok"), "17.0.2");
}

#[test]
fn report_when_java_missing() {
    assert_eq!(java_version_report(None), "Java not found");
    assert_eq!(java_version_report(Some("x \"11\"".to_string())), "11");
}

#[test]
fn executable_choice() {
    assert_eq!(
        java_executable(Some("/opt/j/bin/java".to_string()), Some("/h".to_string()), &Platform::Linux),
        "/opt/j/bin/java"
    );
    assert_eq!(java_executable(None, Some("/usr/lib/jvm".to_string()), &Platform::Linux), "/usr/lib/jvm/bin/java");
    assert_eq!(java_executable(None, Some("/Library/Java".to_string()), &Platform::MacOs), "/Library/Java/bin/java");
    assert_eq!(java_executable(None, Some("C:/jdk".to_string()), &Platform::Windows), "C:/jdk/bin/java.exe");
    assert_eq!(java_executable(None, None, &Platform::Linux), "java");
}

#[test]
fn c_executable_choice() {
    assert_eq!(c_java_executable(String::new(), Some("/jdk".to_string()), &Platform::Linux), "/jdk/bin/java");
    assert_eq!(c_java_executable(String::new(), Some("C:/jdk".to_string()), &Platform::Windows), "C:/jdk/bin/java.exe");
    assert_eq!(c_java_executable(String::new(), None, &Platform::MacOs), "java");
    assert_eq!(c_java_executable("/x/java".to_string(), None, &Platform::Linux), "/x/java");
}
