use docker_hosts::docker_host::DockerHost;
use docker_hosts::file_text::{join_lines, split_lines, update_hosts_text};

fn owned(lines: &[&str]) -> Vec<String> {
    lines.iter().map(|l| l.to_string()).collect()
}

#[test]
fn split_lines_of_empty_text_is_one_empty_line() {
    assert_eq!(split_lines(""), vec![""]);
}

#[test]
fn split_lines_without_newline_is_one_line() {
    assert_eq!(split_lines("127.0.0.1 localhost"), vec!["127.0.0.1 localhost"]);
}

#[test]
fn split_lines_cuts_at_each_newline() {
    assert_eq!(split_lines("a\nb\nc"), vec!["a", "b", "c"]);
}

#[test]
fn split_lines_keeps_empty_lines() {
    assert_eq!(split_lines("a\n\nb\n"), vec!["a", "", "b", ""]);
    assert_eq!(split_lines("\n"), vec!["", ""]);
    assert_eq!(split_lines("\n\n"), vec!["", "", ""]);
}

#[test]
fn split_lines_keeps_carriage_returns() {
    assert_eq!(split_lines("a\r\nb"), vec!["a\r", "b"]);
}

#[test]
fn split_lines_handles_wide_characters() {
    assert_eq!(split_lines("äö\nü€\n𝄞"), vec!["äö", "ü€", "𝄞"]);
}

#[test]
fn split_lines_agrees_with_splitting_on_newline() {
    for text in ["", "a", "\n", "a\n", "\na", "a\nb", "a\n\n\nb\n", "ä\nb c\td\n"] {
        let expected: Vec<String> = text.split("\n").map(|l| l.to_string()).collect();
        assert_eq!(split_lines(text), expected);
    }
}

#[test]
fn join_lines_of_nothing_is_empty() {
    assert_eq!(join_lines(&[]), "");
}

#[test]
fn join_lines_of_one_line_is_that_line() {
    assert_eq!(join_lines(&owned(&["a"])), "a");
    assert_eq!(join_lines(&owned(&[""])), "");
}

#[test]
fn join_lines_puts_a_newline_between_lines() {
    assert_eq!(join_lines(&owned(&["a", "b", "c"])), "a\nb\nc");
    assert_eq!(join_lines(&owned(&["a", "", "b", ""])), "a\n\nb\n");
    assert_eq!(join_lines(&owned(&["", ""])), "\n");
}

#[test]
fn join_lines_agrees_with_joining_on_newline() {
    for lines in [vec![], vec![""], vec!["a"], vec!["a", "b"], vec!["", "a", "", ""]] {
        let lines = owned(&lines);
        assert_eq!(join_lines(&lines), lines.join("\n"));
    }
}

#[test]
fn joining_the_lines_of_a_text_gives_the_text() {
    for text in ["", "a", "\n", "a\n", "\na", "a\nb", "a\n\n\nb\n"] {
        assert_eq!(join_lines(&split_lines(text)), text);
    }
}

#[test]
fn update_hosts_text_appends_a_block() {
    let hosts = vec![DockerHost {
        hostname: "host1".into(),
        ip_address: "1.2.3.4".into(),
    }];
    assert_eq!(
        update_hosts_text("127.0.0.1 localhost\n", &hosts),
        "127.0.0.1 localhost\n\n# BEGIN DOCKER HOSTS\n1.2.3.4         host1\n# END DOCKER HOSTS"
    );
}

#[test]
fn update_hosts_text_replaces_a_block() {
    let hosts = vec![DockerHost {
        hostname: "host3".into(),
        ip_address: "3.3.3.3".into(),
    }];
    let text = "a\n# BEGIN DOCKER HOSTS\n1.1.1.1         host1\n# END DOCKER HOSTS\nb";
    assert_eq!(
        update_hosts_text(text, &hosts),
        "a\nb\n# BEGIN DOCKER HOSTS\n3.3.3.3         host3\n# END DOCKER HOSTS"
    );
}

#[test]
fn update_hosts_text_of_empty_file() {
    assert_eq!(
        update_hosts_text("", &[]),
        "\n# BEGIN DOCKER HOSTS\n# END DOCKER HOSTS"
    );
}

#[test]
fn update_hosts_text_twice_is_once() {
    let hosts = vec![DockerHost {
        hostname: "host1".into(),
        ip_address: "1.2.3.4".into(),
    }];
    let once = update_hosts_text("a\nb", &hosts);
    let twice = update_hosts_text(&once, &hosts);
    assert_eq!(once, twice);
}
