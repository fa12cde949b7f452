use dockerdeploy::config::BranchConfig;
use dockerdeploy::config::ContainerConfig;
use dockerdeploy::config::DockerDeployConfig;
use dockerdeploy::config::HeartbeatConfig;
use dockerdeploy::config::ImageConfig;
use dockerdeploy::config::MountConfig;
use dockerdeploy::config::PortConfig;
use dockerdeploy::controller::run_plan;
use dockerdeploy::runtime::render_run;
use dockerdeploy::text::chars_of;
use dockerdeploy::text::decimal_string;
use dockerdeploy::text::join_path_chars;
use dockerdeploy::text::replace_chars;
use dockerdeploy::text::string_from_chars;

fn config(ports: Vec<PortConfig>, mounts: Vec<MountConfig>) -> DockerDeployConfig {
    DockerDeployConfig {
        api_version: "1.40".to_string(),
        validation_key: Some("abc".to_string()),
        server: None,
        image: ImageConfig {
            name: "registry.example.com/app".to_string(),
            tag: "stable".to_string(),
        },
        container: ContainerConfig {
            name: "app".to_string(),
            command: vec!["run".to_string()],
            ports,
            mounts,
        },
        branch: BranchConfig {
            name: "master".to_string(),
            build_on_failure: false,
        },
        heartbeat: HeartbeatConfig {
            sleep_time: 10,
            endpoint: "/health".to_string(),
        },
    }
}

#[test]
fn decimal_notation_is_exact() {
    assert_eq!(decimal_string(0), "0");
    assert_eq!(decimal_string(7), "7");
    assert_eq!(decimal_string(80), "80");
    assert_eq!(decimal_string(8080), "8080");
    assert_eq!(decimal_string(65535), "65535");
    assert_eq!(decimal_string(u32::MAX), "4294967295");
}

#[test]
fn plan_image_is_name_colon_tag() {
    let plan = run_plan(&config(Vec::new(), Vec::new()));
    assert_eq!(plan.image, "registry.example.com/app:stable");
    assert_eq!(plan.name, "app");
    assert_eq!(plan.cmd, vec!["run".to_string()]);
}

#[test]
fn port_bindings_are_keyed_by_container_port() {
    let plan = run_plan(&config(
        vec![PortConfig {
            host: 8080,
            target: 80,
        }],
        Vec::new(),
    ));
    let rendered = render_run(plan, "/srv/app");
    assert_eq!(rendered.ports.len(), 1);
    assert_eq!(rendered.ports[0].container_port, "80/tcp");
    assert_eq!(rendered.ports[0].host_ip, "0.0.0.0");
    assert_eq!(rendered.ports[0].host_port, "8080/tcp");
}

#[test]
fn pwd_placeholder_is_substituted() {
    let plan = run_plan(&config(
        Vec::new(),
        vec![MountConfig {
            host: "$PWD/data".to_string(),
            target: "/data".to_string(),
        }],
    ));
    let rendered = render_run(plan, "/srv/app");
    assert_eq!(rendered.binds, vec!["/srv/app/data:/data".to_string()]);
}

#[test]
fn relative_host_path_lands_under_cwd() {
    let plan = run_plan(&config(
        Vec::new(),
        vec![MountConfig {
            host: "data".to_string(),
            target: "/data".to_string(),
        }],
    ));
    let rendered = render_run(plan, "/srv");
    assert_eq!(rendered.binds, vec!["/srv/data:/data".to_string()]);
}

#[test]
fn absolute_host_path_stands_alone() {
    let plan = run_plan(&config(
        Vec::new(),
        vec![MountConfig {
            host: "/var/lib/app".to_string(),
            target: "/data".to_string(),
        }],
    ));
    let rendered = render_run(plan, "/srv");
    assert_eq!(rendered.binds, vec!["/var/lib/app:/data".to_string()]);
}

#[test]
fn rendering_keeps_name_image_and_command() {
    let plan = run_plan(&config(Vec::new(), Vec::new()));
    let rendered = render_run(plan, "/srv");
    assert_eq!(rendered.name, "app");
    assert_eq!(rendered.image, "registry.example.com/app:stable");
    assert_eq!(rendered.cmd, vec!["run".to_string()]);
}

#[test]
fn replace_substitutes_every_occurrence() {
    let replaced = replace_chars(
        &chars_of("a$PWDb$PWD"),
        &chars_of("$PWD"),
        &chars_of("/srv"),
    );
    assert_eq!(string_from_chars(&replaced), "a/srvb/srv");
}

#[test]
fn replace_without_occurrence_keeps_string() {
    let replaced = replace_chars(&chars_of("plain"), &chars_of("$PWD"), &chars_of("/srv"));
    assert_eq!(string_from_chars(&replaced), "plain");
}

#[test]
fn replace_with_empty_pattern_keeps_string() {
    let replaced = replace_chars(&chars_of("plain"), &chars_of(""), &chars_of("/srv"));
    assert_eq!(string_from_chars(&replaced), "plain");
}

#[test]
fn join_adds_separator_only_when_missing() {
    let joined = join_path_chars(&chars_of("/srv/"), &chars_of("data"));
    assert_eq!(string_from_chars(&joined), "/srv/data");
    let joined = join_path_chars(&chars_of("/srv"), &chars_of("data"));
    assert_eq!(string_from_chars(&joined), "/srv/data");
    let joined = join_path_chars(&chars_of("/srv"), &chars_of("/abs"));
    assert_eq!(string_from_chars(&joined), "/abs");
}
