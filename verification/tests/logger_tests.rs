use u2secure::infrastructure::logger::{format_log_line, format_operation, sanitize_detail};

#[test]
fn test_sanitize_ed25519_key() {
    let detail = "设置公钥: ssh-ed25519 AAAAC3NzaC1lZDI1NTE5AAAAI... user@host";
    let sanitized = sanitize_detail(detail);
    assert!(sanitized.contains("[KEY_REDACTED]"));
    assert!(!sanitized.contains("AAAAC3NzaC1lZDI1NTE5AAAAI"));
}

#[test]
fn test_sanitize_rsa_key() {
    let detail = "设置公钥: ssh-rsa AAAAB3NzaC1yc2EAAAADAQABAAABAQ... user@host";
    let sanitized = sanitize_detail(detail);
    assert!(sanitized.contains("[KEY_REDACTED]"));
    assert!(!sanitized.contains("AAAAB3NzaC1yc2EAAAADAQABAAABAQ"));
}

#[test]
fn test_no_false_positive() {
    let detail = "配置完成，SSH 端口已修改为 2222";
    let sanitized = sanitize_detail(detail);
    assert_eq!(sanitized, detail);
}

#[test]
fn test_sanitize_keeps_following_lines() {
    let detail = "key: ssh-ed25519 AAAA user@host\nnext line";
    assert_eq!(sanitize_detail(detail), "key: ssh-ed25519 [KEY_REDACTED]\nnext line");
    let detail = "a ssh-rsa BBBB x\rrest";
    assert_eq!(sanitize_detail(detail), "a ssh-rsa [KEY_REDACTED]\rrest");
}

#[test]
fn test_sanitize_both_key_kinds() {
    let detail = "ssh-ed25519 AAAA\nssh-rsa BBBB";
    assert_eq!(sanitize_detail(detail), "ssh-ed25519 [KEY_REDACTED]\nssh-rsa [KEY_REDACTED]");
}

#[test]
fn test_log_line_format() {
    assert_eq!(format_log_line("2024-01-02 03:04:05", "hello  "), "[2024-01-02 03:04:05] hello\n");
}

#[test]
fn test_operation_message_redacts() {
    assert_eq!(
        format_operation("完成", "设置公钥: ssh-rsa AAAA"),
        "[操作] 完成: 设置公钥: ssh-rsa [KEY_REDACTED]"
    );
}

#[test]
fn test_sanitize_redacts_every_key() {
    let d = "k1: ssh-ed25519 KEYONE u@h\nk2: ssh-ed25519 KEYTWO u@h\r\nk3: ssh-rsa KEYTHREE x\nk4: ssh-rsa KEYFOUR";
    let s = sanitize_detail(d);
    assert!(!s.contains("KEYONE"));
    assert!(!s.contains("KEYTWO"));
    assert!(!s.contains("KEYTHREE"));
    assert!(!s.contains("KEYFOUR"));
    assert_eq!(
        s,
        "k1: ssh-ed25519 [KEY_REDACTED]\nk2: ssh-ed25519 [KEY_REDACTED]\nk3: ssh-rsa [KEY_REDACTED]\nk4: ssh-rsa [KEY_REDACTED]"
    );
}
