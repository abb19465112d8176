use reliability::os_release::distribution;

fn by_the_standard_library(content: &str) -> String {
    let mut name = "unknown".to_string();
    let mut version = "unknown".to_string();
    for line in content.lines() {
        if line.starts_with("ID=") {
            name = line.trim_start_matches("ID=").trim_matches('"').to_string();
        }
        if line.starts_with("VERSION_ID=") {
            version = line.trim_start_matches("VERSION_ID=").trim_matches('"').to_string();
        }
    }
    format!("{} {}", name, version)
}

#[test]
fn ubuntu_is_read() {
    let content = "PRETTY_NAME=\"Ubuntu 22.04.4 LTS\"\nNAME=\"Ubuntu\"\nVERSION_ID=\"22.04\"\nVERSION=\"22.04.4 LTS (Jammy Jellyfish)\"\nVERSION_CODENAME=jammy\nID=ubuntu\nID_LIKE=debian\nHOME_URL=\"https://www.ubuntu.com/\"\n";
    assert_eq!(distribution(content), "ubuntu 22.04");
}

#[test]
fn a_missing_file_reads_as_unknown() {
    assert_eq!(distribution(""), "unknown unknown");
}

#[test]
fn a_rolling_distribution_has_no_version() {
    assert_eq!(distribution("NAME=\"Arch Linux\"\nID=arch\nBUILD_ID=rolling\n"), "arch unknown");
}

#[test]
fn a_version_without_a_name() {
    assert_eq!(distribution("VERSION_ID=39"), "unknown 39");
}

#[test]
fn quotes_around_a_value_are_taken_off() {
    assert_eq!(distribution("ID=\"fedora\"\nVERSION_ID=\"\"40\"\"\n"), "fedora 40");
    assert_eq!(distribution("ID=\"\"\nVERSION_ID=\"\n"), " ");
    assert_eq!(distribution("ID=a\"b\n"), "a\"b unknown");
}

#[test]
fn the_last_line_that_gives_a_field_wins() {
    assert_eq!(distribution("ID=first\nVERSION_ID=1\nID=second\nVERSION_ID=2\n"), "second 2");
}

#[test]
fn a_repeated_key_is_taken_off_as_often_as_it_stands() {
    assert_eq!(distribution("ID=ID=ID=nixos\n"), "nixos unknown");
    assert_eq!(distribution("VERSION_ID=VERSION_ID=\"24.05\"\n"), "unknown 24.05");
}

#[test]
fn keys_count_only_at_the_start_of_a_line() {
    assert_eq!(distribution(" ID=indented\nXID=other\nid=lower\n"), "unknown unknown");
}

#[test]
fn carriage_returns_before_line_feeds_are_dropped() {
    assert_eq!(distribution("ID=debian\r\nVERSION_ID=\"12\"\r\n"), "debian 12");
}

#[test]
fn a_last_line_without_a_line_feed_is_read() {
    assert_eq!(distribution("ID=void"), "void unknown");
    assert_eq!(distribution("FOO=1\nVERSION_ID=7"), "unknown 7");
}

#[test]
fn text_beyond_ascii_is_kept() {
    assert_eq!(distribution("ID=\"ünïx\"\nVERSION_ID=二\n"), "ünïx 二");
}

#[test]
fn the_parser_agrees_with_the_standard_library() {
    let samples = [
        "",
        "\n",
        "\n\n",
        "\r\n",
        "\r",
        "ID=",
        "ID=\n",
        "ID=\r",
        "ID=x\r",
        "ID=x\r\r\n",
        "ID=x\n\r",
        "ID=\"\"\"",
        "ID=\"a\" \"",
        "ID=ID=",
        "ID=IDID=",
        "ID=I",
        "VERSION_ID=ID=3",
        "ID=VERSION_ID=3\nVERSION_ID=ID=4",
        "VERSION_ID",
        "VERSION_ID=\"\n\"",
        "a\nb\nID=c\nd",
        "ID=c\n\nVERSION_ID=1\n\n\n",
        "ID=\"quoted\r\n",
        "ID=\u{1F600}\nVERSION_ID=\"\u{00e9}\"",
        "NAME=Gentoo\nID=gentoo\nPRETTY_NAME=\"Gentoo Linux\"\nVERSION_ID=\"2.15\"\n",
    ];
    for content in samples {
        assert_eq!(distribution(content), by_the_standard_library(content), "{:?}", content);
    }
}
