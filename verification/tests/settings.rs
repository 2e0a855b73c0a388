use minecraft_manager::{
    MinecraftServerSettings, MinecraftServerSettingsFromLinesError, MinecraftServerType,
};

fn lines(v: &[&str]) -> Vec<String> {
    v.iter().map(|s| s.to_string()).collect()
}

#[test]
fn full_section_reads_every_field() {
    let input = lines(&[
        "type=vanilla-papermc",
        "dir=/srv/mc",
        "exec=server.jar",
        "ram=2048",
        "java_cmd=java17",
    ]);
    let (settings, next) = MinecraftServerSettings::from_lines(&input, 0).unwrap();
    assert_eq!(settings.server_type, MinecraftServerType::VanillaPaperMC);
    assert_eq!(settings.directory, "/srv/mc");
    assert_eq!(settings.executable, "server.jar");
    assert_eq!(settings.dedicated_wam, 2048);
    assert_eq!(settings.java_cmd, Some("java17".to_owned()));
    assert_eq!(next, 5);
}

#[test]
fn memory_and_interpreter_have_defaults() {
    let input = lines(&["type=vanilla-mojang", "dir=d", "exec=e"]);
    let (settings, _) = MinecraftServerSettings::from_lines(&input, 0).unwrap();
    assert_eq!(settings.dedicated_wam, 1024);
    assert_eq!(settings.java_cmd, None);
}

#[test]
fn blank_line_ends_the_section_and_reports_where() {
    let input = lines(&["type=vanilla-mojang", "dir=d", "exec=e", "  ", "type=vanilla-papermc"]);
    let (settings, next) = MinecraftServerSettings::from_lines(&input, 0).unwrap();
    assert_eq!(settings.server_type, MinecraftServerType::VanillaMojang);
    assert_eq!(next, 4);
}

#[test]
fn sections_can_be_read_one_after_the_other() {
    let input = lines(&[
        "type=vanilla-mojang",
        "dir=a",
        "exec=x.jar",
        "",
        "type=vanilla-papermc",
        "dir=b",
        "exec=y.jar",
    ]);
    let (first, next) = MinecraftServerSettings::from_lines(&input, 0).unwrap();
    assert_eq!(first.directory, "a");
    let (second, end) = MinecraftServerSettings::from_lines(&input, next).unwrap();
    assert_eq!(second.directory, "b");
    assert_eq!(second.server_type, MinecraftServerType::VanillaPaperMC);
    assert_eq!(end, 7);
}

#[test]
fn custom_block_reads_indented_keys_and_pushes_back() {
    let input = lines(&[
        "type=custom",
        " name=My Server",
        "\tparser=helper.py",
        " command-override=run.sh",
        "dir=d",
        "exec=e",
    ]);
    let (settings, next) = MinecraftServerSettings::from_lines(&input, 0).unwrap();
    assert_eq!(
        settings.server_type,
        MinecraftServerType::Custom {
            name: "My Server".to_owned(),
            line_parser: "helper.py".to_owned(),
            command_override: Some("run.sh".to_owned()),
        }
    );
    assert_eq!(settings.directory, "d");
    assert_eq!(next, 6);
}

#[test]
fn custom_block_skips_empty_lines() {
    let input = lines(&["type=custom", "", " name=n", "", " parser=p", "dir=d", "exec=e"]);
    let (settings, _) = MinecraftServerSettings::from_lines(&input, 0).unwrap();
    assert_eq!(
        settings.server_type,
        MinecraftServerType::Custom {
            name: "n".to_owned(),
            line_parser: "p".to_owned(),
            command_override: None,
        }
    );
}

#[test]
fn missing_fields_complain_in_order() {
    assert_eq!(
        MinecraftServerSettings::from_lines(&lines(&[]), 0),
        Err(MinecraftServerSettingsFromLinesError::MissingServerType)
    );
    assert_eq!(
        MinecraftServerSettings::from_lines(&lines(&["type=vanilla-mojang"]), 0),
        Err(MinecraftServerSettingsFromLinesError::MissingDirectory)
    );
    assert_eq!(
        MinecraftServerSettings::from_lines(&lines(&["type=vanilla-mojang", "dir=d"]), 0),
        Err(MinecraftServerSettingsFromLinesError::MissingExecutable)
    );
}

#[test]
fn unknown_keys_and_types_are_reported() {
    assert_eq!(
        MinecraftServerSettings::from_lines(&lines(&["frobnicate=1"]), 0),
        Err(MinecraftServerSettingsFromLinesError::UnknownKey("frobnicate".to_owned()))
    );
    assert_eq!(
        MinecraftServerSettings::from_lines(&lines(&["no equals sign"]), 0),
        Err(MinecraftServerSettingsFromLinesError::UnknownKey("no equals sign".to_owned()))
    );
    assert_eq!(
        MinecraftServerSettings::from_lines(&lines(&["type=weird"]), 0),
        Err(MinecraftServerSettingsFromLinesError::UnknownServerType("weird".to_owned()))
    );
}

#[test]
fn keys_are_not_trimmed() {
    assert_eq!(
        MinecraftServerSettings::from_lines(&lines(&["dir =x"]), 0),
        Err(MinecraftServerSettingsFromLinesError::UnknownKey("dir ".to_owned()))
    );
}

#[test]
fn ram_must_be_a_number() {
    assert_eq!(
        MinecraftServerSettings::from_lines(
            &lines(&["type=vanilla-mojang", "dir=d", "exec=e", "ram=abc"]),
            0
        ),
        Err(MinecraftServerSettingsFromLinesError::RamNotAnInt("abc".to_owned()))
    );
    // Too large for the field is the same complaint.
    assert_eq!(
        MinecraftServerSettings::from_lines(
            &lines(&["type=vanilla-mojang", "dir=d", "exec=e", "ram=4294967296"]),
            0
        ),
        Err(MinecraftServerSettingsFromLinesError::RamNotAnInt("4294967296".to_owned()))
    );
}

#[test]
fn ram_value_is_trimmed_and_may_carry_a_plus() {
    let input = lines(&["type=vanilla-mojang", "dir=d", "exec=e", "ram= +4294967295 "]);
    let (settings, _) = MinecraftServerSettings::from_lines(&input, 0).unwrap();
    assert_eq!(settings.dedicated_wam, 4294967295);
}

#[test]
fn custom_block_complains_about_unknown_and_missing_keys() {
    assert_eq!(
        MinecraftServerSettings::from_lines(&lines(&["type=custom", " nonsense=1"]), 0),
        Err(MinecraftServerSettingsFromLinesError::CustomTypeUnknownKey("nonsense".to_owned()))
    );
    assert_eq!(
        MinecraftServerSettings::from_lines(&lines(&["type=custom", " no equals"]), 0),
        Err(MinecraftServerSettingsFromLinesError::CustomTypeUnknownKey("no equals".to_owned()))
    );
    assert_eq!(
        MinecraftServerSettings::from_lines(&lines(&["type=custom", "dir=d"]), 0),
        Err(MinecraftServerSettingsFromLinesError::CustomServerTypeMissingName)
    );
    assert_eq!(
        MinecraftServerSettings::from_lines(&lines(&["type=custom", " name=n", "dir=d"]), 0),
        Err(MinecraftServerSettingsFromLinesError::CustomServerTypeMissingLineParser)
    );
}

#[test]
fn later_values_replace_earlier_ones() {
    let input = lines(&["type=vanilla-mojang", "dir=first", "dir=second", "exec=e"]);
    let (settings, _) = MinecraftServerSettings::from_lines(&input, 0).unwrap();
    assert_eq!(settings.directory, "second");
}

#[test]
fn values_keep_their_spaces() {
    let input = lines(&["type=vanilla-mojang", "dir= spaced out ", "exec=e"]);
    let (settings, _) = MinecraftServerSettings::from_lines(&input, 0).unwrap();
    assert_eq!(settings.directory, " spaced out ");
}

#[test]
fn get_command_builds_the_default_command_line() {
    let settings = MinecraftServerSettings::new(
        MinecraftServerType::VanillaPaperMC,
        "/srv/mc".to_owned(),
        "server.jar".to_owned(),
    )
    .with_ram(2048);
    let cmd = settings.get_command();
    assert_eq!(cmd.program, "java");
    assert_eq!(cmd.directory, "/srv/mc");
    assert_eq!(
        cmd.args,
        vec![
            "-Xms2048M".to_owned(),
            "-Xmx2048M".to_owned(),
            "-Dsun.stdout.encoding=UTF-8".to_owned(),
            "-Dsun.stderr.encoding=UTF-8".to_owned(),
            "-DFile.Encoding=UTF-8".to_owned(),
            "-jar".to_owned(),
            "server.jar".to_owned(),
            "nogui".to_owned(),
        ]
    );
}

#[test]
fn get_command_prefers_the_interpreter_override() {
    let settings = MinecraftServerSettings::new(
        MinecraftServerType::VanillaMojang,
        "d".to_owned(),
        "e.jar".to_owned(),
    )
    .with_java_cmd(Some("/opt/java/bin/java".to_owned()));
    assert_eq!(settings.get_command().program, "/opt/java/bin/java");
}

#[test]
fn get_command_uses_a_custom_command_override() {
    // The override is the whole command line: no memory flags, no
    // executable argument.
    let settings = MinecraftServerSettings::new(
        MinecraftServerType::Custom {
            name: "n".to_owned(),
            line_parser: "p".to_owned(),
            command_override: Some("./start.sh".to_owned()),
        },
        "d".to_owned(),
        "e.jar".to_owned(),
    );
    let cmd = settings.get_command();
    assert_eq!(cmd.program, "./start.sh");
    assert_eq!(cmd.args, Vec::<String>::new());
    assert_eq!(cmd.directory, "d");
}

#[test]
fn interpreter_override_keeps_the_constructed_arguments() {
    // With an interpreter override the command override is not in effect,
    // so the constructed arguments still apply.
    let settings = MinecraftServerSettings::new(
        MinecraftServerType::Custom {
            name: "n".to_owned(),
            line_parser: "p".to_owned(),
            command_override: Some("./start.sh".to_owned()),
        },
        "d".to_owned(),
        "e.jar".to_owned(),
    )
    .with_java_cmd(Some("java17".to_owned()));
    let cmd = settings.get_command();
    assert_eq!(cmd.program, "java17");
    assert_eq!(cmd.args.len(), 8);
    assert_eq!(cmd.args[6], "e.jar");
}

#[test]
fn custom_kind_without_override_builds_the_default_command_line() {
    let settings = MinecraftServerSettings::new(
        MinecraftServerType::Custom {
            name: "n".to_owned(),
            line_parser: "p".to_owned(),
            command_override: None,
        },
        "d".to_owned(),
        "e.jar".to_owned(),
    );
    let cmd = settings.get_command();
    assert_eq!(cmd.program, "java");
    assert_eq!(cmd.args.len(), 8);
}

#[test]
fn display_strings_have_the_expected_shape() {
    let settings = MinecraftServerSettings::new(
        MinecraftServerType::VanillaPaperMC,
        "/srv".to_owned(),
        "s.jar".to_owned(),
    )
    .with_ram(2048);
    assert_eq!(settings.display_string(), "vanilla-papermc @ /srv :: s.jar @ 2048MB");
    let custom = MinecraftServerType::Custom {
        name: "My Server".to_owned(),
        line_parser: "p".to_owned(),
        command_override: None,
    };
    assert_eq!(custom.display_string(), "custom (My Server)");
}
