use ipano::i18n::Lang;
use ipano::probe::mail::{host_for, render_section, render_terminal, targets, MailResult, PortStatus, PORTS};

#[test]
fn render_marks_open_closed() {
    let results = vec![MailResult {
        provider: "Gmail".into(),
        host: "smtp.gmail.com".into(),
        ports: vec![
            PortStatus { port: 25, open: false },
            PortStatus { port: 465, open: true },
            PortStatus { port: 587, open: true },
        ],
    }];
    let s = render_section(&results, Lang::Zh);
    assert!(s.contains("Gmail"));
    assert!(s.contains("邮局连通性"));
    // 25 关、465/587 开
    assert!(s.contains("| Gmail | ✗ | ✓ | ✓ |"));
}

#[test]
fn mail_matrix_is_six_protocols_by_fifteen_providers() {
    let t = targets();
    assert_eq!(t.len(), 15);
    let names: Vec<&str> = t.iter().map(|x| x.0).collect();
    assert_eq!(
        names,
        vec![
            "Gmail", "Outlook", "Office365", "Yahoo", "Apple", "QQ", "163", "Sina", "Sohu", "Yandex", "Zoho", "GMX",
            "MailRU", "AOL", "FastMail"
        ]
    );
    assert_eq!(PORTS, [25, 465, 587, 110, 995, 143, 993]);
    assert_eq!(host_for("s", "p", "i", 465), "s");
    assert_eq!(host_for("s", "p", "i", 995), "p");
    assert_eq!(host_for("s", "p", "i", 993), "i");
    let s = render_section(&[], Lang::En);
    assert!(s.contains("| Provider | SMTP 25 | SMTPS 465 | SMTP 587 | POP3 110 | POP3S 995 | IMAP 143 | IMAPS 993 |"));
    let r = MailResult {
        provider: "QQ".into(),
        host: "smtp.qq.com".into(),
        ports: vec![PortStatus { port: 993, open: true }, PortStatus { port: 25, open: false }],
    };
    assert!(render_section(&[r], Lang::En).contains("| QQ | ✗ | — | — | — | — | — | ✓ |"));
}

#[test]
fn mail_terminal_table_marks_and_colours() {
    let rs = vec![MailResult {
        provider: "Gmail".to_string(),
        host: "smtp.gmail.com".to_string(),
        ports: vec![PortStatus { port: 25, open: false }, PortStatus { port: 465, open: true }],
    }];
    let plain = render_terminal(&rs, Lang::En, true);
    assert!(plain.starts_with("═══ Mail connectivity (SMTP/POP3/IMAP) ═══\n"));
    assert!(plain.contains("Provider") && plain.contains("SMTPS 465") && plain.contains("IMAPS 993"));
    assert!(plain.contains("Gmail"));
    assert!(plain.contains('✓') && plain.contains('✗') && plain.contains('—'));
    assert!(!plain.contains('\u{1b}'));
    let coloured = render_terminal(&rs, Lang::Zh, false);
    assert!(coloured.starts_with("═══ 邮局连通性(SMTP/POP3/IMAP) ═══\n"));
    assert!(coloured.contains("邮局"));
}
