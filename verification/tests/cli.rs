use awsudo::args::{Error, Flag};
use awsudo::cli::{parse, resolve};

fn argv(parts: &[&str]) -> Vec<String> {
    parts.iter().map(|p| p.to_string()).collect()
}

#[test]
fn it_parses_user() {
    let result = parse(&argv(&["awsudo", "-u", "jeff"])).unwrap();

    assert_eq!(result.user, "jeff");
}

#[test]
fn it_sets_default_cache_dir() {
    let result = parse(&argv(&["awsudo", "-u", "jeff"])).unwrap();

    let dir = match dirs::runtime_dir() {
        None => dirs::home_dir().unwrap().join(".awsudo/"),
        Some(p) => p.join(".awsudo/"),
    };

    assert_eq!(result.cache_dir, dir.to_str().unwrap());
}

#[test]
fn it_accepts_cache_dir_option() {
    let result = parse(&argv(&["awsudo", "-u", "jeff", "--cache-dir", "/foo/bar"])).unwrap();

    assert_eq!(result.cache_dir, "/foo/bar");
}

#[test]
fn it_parses_config() {
    let result = parse(&argv(&["awsudo", "-u", "jeff", "-c", "/usr/specific/path"])).unwrap();

    assert_eq!(result.config, "/usr/specific/path");
}

#[test]
fn it_parses_single_command() {
    let result = parse(&argv(&["awsudo", "-u", "jeff", "echo"])).unwrap();

    assert_eq!(result.command, "echo");
}

#[test]
fn it_parses_command_with_multiple_words() {
    let result = parse(&argv(&["awsudo", "-u", "jeff", "echo", "bezos", "aws"])).unwrap();

    assert_eq!(result.command, "echo bezos aws");
}

#[test]
fn it_parses_command_with_attribute() {
    let result = parse(&argv(&["awsudo", "-u", "jeff", "ls", "-a"])).unwrap();

    assert_eq!(result.command, "ls -a");
}

#[test]
fn it_parses_command_with_multiple_attributes() {
    let result = parse(&argv(&["awsudo", "-u", "jeff", "ls", "-a", "-l"])).unwrap();

    assert_eq!(result.command, "ls -a -l");
}

#[test]
fn it_defaults_config_under_home() {
    let home = Some("/home/jeff".to_string());
    let runtime = Some("/run/user/1000".to_string());
    let result = resolve(&argv(&["awsudo", "-u", "jeff"]), &home, &runtime).unwrap();

    assert_eq!(result.config, "/home/jeff/.aws/config");
}

#[test]
fn it_prefers_runtime_dir_for_cache() {
    let home = Some("/home/jeff".to_string());
    let runtime = Some("/run/user/1000".to_string());
    let result = resolve(&argv(&["awsudo", "-u", "jeff"]), &home, &runtime).unwrap();

    assert_eq!(result.cache_dir, "/run/user/1000/.awsudo/");
}

#[test]
fn it_falls_back_to_home_for_cache() {
    let home = Some("/home/jeff".to_string());
    let result = resolve(&argv(&["awsudo", "-u", "jeff"]), &home, &None).unwrap();

    assert_eq!(result.cache_dir, "/home/jeff/.awsudo/");
}

#[test]
fn it_keeps_trailing_slash_of_base_dir() {
    let home = Some("/home/jeff/".to_string());
    let result = resolve(&argv(&["awsudo", "-u", "jeff"]), &home, &None).unwrap();

    assert_eq!(result.config, "/home/jeff/.aws/config");
    assert_eq!(result.cache_dir, "/home/jeff/.awsudo/");
}

#[test]
fn it_leaves_command_empty_without_subcommand() {
    let home = Some("/home/jeff".to_string());
    let result = resolve(&argv(&["awsudo", "-u", "jeff"]), &home, &None).unwrap();

    assert_eq!(result.command, "");
}

#[test]
fn it_trims_command_edge_whitespace() {
    let home = Some("/home/jeff".to_string());
    let result = resolve(&argv(&["awsudo", "-u", "jeff", "echo", "x "]), &home, &None).unwrap();

    assert_eq!(result.command, "echo x");
}

#[test]
fn it_takes_the_last_occurrence_of_a_flag() {
    let home = Some("/home/jeff".to_string());
    let result = resolve(&argv(&["awsudo", "-u", "jeff", "--user", "ann"]), &home, &None).unwrap();

    assert_eq!(result.user, "ann");
}

#[test]
fn it_rejects_missing_user() {
    let err = parse(&argv(&["awsudo"])).unwrap_err();

    assert_eq!(err, Error::MissingUser);
}

#[test]
fn it_rejects_user_flag_without_value() {
    let err = parse(&argv(&["awsudo", "-u"])).unwrap_err();

    assert_eq!(err, Error::MissingValue(Flag::User));
}

#[test]
fn it_rejects_config_flag_without_value() {
    let err = parse(&argv(&["awsudo", "-u", "jeff", "--config"])).unwrap_err();

    assert_eq!(err, Error::MissingValue(Flag::Config));
}

#[test]
fn it_rejects_cache_dir_flag_without_value() {
    let err = parse(&argv(&["awsudo", "-u", "jeff", "--cache-dir"])).unwrap_err();

    assert_eq!(err, Error::MissingValue(Flag::CacheDir));
}

#[test]
fn it_fails_config_resolution_without_home() {
    let runtime = Some("/run/user/1000".to_string());
    let err = resolve(&argv(&["awsudo", "-u", "jeff"]), &None, &runtime).unwrap_err();

    assert_eq!(err, Error::UnresolvedConfigPath);
}

#[test]
fn it_fails_cache_resolution_without_any_dir() {
    let err = resolve(&argv(&["awsudo", "-u", "jeff", "-c", "/cfg"]), &None, &None).unwrap_err();

    assert_eq!(err, Error::UnresolvedCacheDir);
}

#[test]
fn it_resolves_identically_on_repeated_calls() {
    let args = argv(&["awsudo", "-u", "jeff", "--cache-dir", "/cache", "ls", "-a"]);
    let home = Some("/home/jeff".to_string());
    let runtime = Some("/run/user/1000".to_string());

    let first = resolve(&args, &home, &runtime).unwrap();
    let second = resolve(&args, &home, &runtime).unwrap();

    assert_eq!(first.user, second.user);
    assert_eq!(first.command, second.command);
    assert_eq!(first.config, second.config);
    assert_eq!(first.cache_dir, second.cache_dir);
}

#[test]
fn it_parses_repeatedly_with_identical_results() {
    let args = argv(&["awsudo", "-u", "jeff", "echo", "bezos"]);

    let first = parse(&args).unwrap();
    let second = parse(&args).unwrap();

    assert_eq!(first.user, second.user);
    assert_eq!(first.command, second.command);
    assert_eq!(first.config, second.config);
    assert_eq!(first.cache_dir, second.cache_dir);
}
