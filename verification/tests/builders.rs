use docker_client::additionals::host::{HostConfigBuilder, PortBinding};
use docker_client::additionals::network::{IPAMConfigBuilder, NetworkBuilder, NetworkSettingsBuilder};
use docker_client::additionals::EmptyObject;
use docker_client::container::config;
use docker_client::container::creator::Creator;
use docker_client::container::health_check::HealthCheckBuilder;
use docker_client::container::inspect::Inspect;
use docker_client::container::list::{Filters, Request as ListRequest};
use docker_client::container::processes_list::ProcessesList;
use docker_client::container::{Config, Create, CreateBuilder, HealthCheck, Killer, Remover, WaitCondition};
use docker_client::dict::Dict;
use docker_client::exec;
use docker_client::image;
use docker_client::networks;
use docker_client::path::{bool_str, int_string, Target};
use docker_client::volume::VolumeCreator;

fn keys<V>(d: &Dict<V>) -> Vec<String> {
    (0..d.len()).map(|i| d.key_at(i).clone()).collect()
}

#[test]
fn dict_keeps_first_insertion_order() {
    let mut d: Dict<u32> = Dict::new();
    assert!(d.is_empty());
    d.insert("b", 1);
    d.insert("a", 2);
    d.insert("b", 3);
    assert_eq!(d.len(), 2);
    assert_eq!(keys(&d), vec!["b", "a"]);
    assert_eq!(d.get("b"), Some(&3));
    assert_eq!(d.get("a"), Some(&2));
    assert_eq!(d.get("c"), None);
    assert_eq!(d.position("a"), Some(1));
    assert!(d.contains_key("a"));
    assert!(!d.contains_key(""));
    assert_eq!(*d.value_at(0), 3);
    let copy = d.clone();
    d.set("c", 4);
    assert_eq!(copy.len(), 2);
    assert_eq!(d.len(), 3);
}

#[test]
fn targets_join_parameters() {
    let mut target = Target::new("/p".to_string());
    target.add("a", "1");
    target.add("a", "2");
    target.add("b", "");
    assert_eq!(target.finish(), "/p?a=1&a=2&b=");
    assert_eq!(Target::new("/p".to_string()).finish(), "/p");
    assert_eq!(bool_str(true), "true");
    assert_eq!(bool_str(false), "false");
    assert_eq!(int_string(0), "0");
    assert_eq!(int_string(5), "5");
    assert_eq!(int_string(-17), "-17");
    assert_eq!(int_string(i32::MIN), "-2147483648");
    assert_eq!(int_string(i32::MAX), "2147483647");
}

#[test]
fn health_check_builder_sets_each_field() {
    let mut builder = HealthCheck::new();
    builder.test("CMD").test("echo test").interval(Some(1_000_000)).timeout(Some(2)).retries(Some(3));
    builder.start_period(None);
    let check = builder.build();
    assert_eq!(check.test, vec!["CMD", "echo test"]);
    assert_eq!(check.interval, Some(1_000_000));
    assert_eq!(check.timeout, Some(2));
    assert_eq!(check.retries, Some(3));
    assert_eq!(check.start_period, None);
    let copy = check.clone();
    assert_eq!(copy.test, check.test);
    assert!(HealthCheckBuilder::new().build().test.is_empty());
}

#[test]
fn host_config_builder_collects_binds_and_ports() {
    let mut builder = HostConfigBuilder::new();
    builder
        .mount("/host".to_string(), "/data".to_string(), true)
        .mount("/tmp".to_string(), "/scratch".to_string(), false)
        .bind_port("80/tcp".to_string(), None, "8080".to_string())
        .bind_port("22/tcp".to_string(), Some("127.0.0.1".to_string()), "2222".to_string())
        .bind_port("80/tcp".to_string(), Some("0.0.0.0".to_string()), "8081".to_string())
        .sysctl("net.core.somaxconn".to_string(), "1024".to_string())
        .sysctl("net.core.somaxconn".to_string(), "2048".to_string());
    let unset = builder.build();
    assert!(!unset.auto_remove);
    builder.auto_remove(true);
    let config = builder.build();
    assert!(config.auto_remove);
    assert_eq!(config.binds, vec!["/host:/data:ro", "/tmp:/scratch:rw"]);
    assert_eq!(keys(&config.port_bindings), vec!["80/tcp", "22/tcp"]);
    let web: &Vec<PortBinding> = config.port_bindings.get("80/tcp").unwrap();
    assert_eq!(web.len(), 2);
    assert_eq!(web[0].host_ip, None);
    assert_eq!(web[0].host_port, "8080");
    assert_eq!(web[1].host_ip.as_deref(), Some("0.0.0.0"));
    assert_eq!(web[1].host_port, "8081");
    assert_eq!(config.port_bindings.get("22/tcp").unwrap()[0].host_port, "2222");
    assert_eq!(config.sysctls.get("net.core.somaxconn").map(|s| s.as_str()), Some("2048"));
    let copy = config.clone();
    assert_eq!(copy.binds, config.binds);
    assert_eq!(copy.port_bindings.get("80/tcp").unwrap().len(), 2);
    builder.auto_remove(false);
    assert!(!builder.build().auto_remove);
}

#[test]
fn network_builder_fills_what_was_not_set() {
    let addresses = IPAMConfigBuilder::new()
        .ipv4_address("10.0.0.2".to_string())
        .ipv6_address("::2".to_string())
        .add_local_ip("169.254.0.2".to_string())
        .build();
    assert_eq!(addresses.ipv4_address, "10.0.0.2");
    assert_eq!(addresses.ipv6_address, "::2");
    assert_eq!(addresses.link_local_ips, vec!["169.254.0.2"]);
    let network = NetworkBuilder::new()
        .ip_am_config(Some(addresses))
        .add_link("db".to_string())
        .add_alias("web".to_string())
        .add_alias("www".to_string())
        .network_id(Some("n1".to_string()))
        .endpoint_id(None)
        .gateway(Some("10.0.0.1".to_string()))
        .ip_address(Some("10.0.0.2".to_string()))
        .ip_prefix_len(Some(24))
        .ipv6_gateway(None)
        .global_ipv6_address(None)
        .global_ipv6_prefix_len(None)
        .mac_address(Some("02:42:ac:11:00:02".to_string()))
        .add_driver_opt("k".to_string(), "v".to_string())
        .build();
    assert_eq!(network.ip_am_config.as_ref().unwrap().ipv4_address, "10.0.0.2");
    assert_eq!(network.links, Some(vec!["db".to_string()]));
    assert_eq!(network.aliases, Some(vec!["web".to_string(), "www".to_string()]));
    assert_eq!(network.network_id, "n1");
    assert_eq!(network.endpoint_id, "");
    assert_eq!(network.gateway, "10.0.0.1");
    assert_eq!(network.ip_prefix_len, 24);
    assert_eq!(network.ipv6_gateway, "");
    assert_eq!(network.global_ipv6_prefix_len, 0);
    assert_eq!(network.mac_address, "02:42:ac:11:00:02");
    assert_eq!(network.driver_opts.as_ref().unwrap().get("k").map(|s| s.as_str()), Some("v"));

    let blank = NetworkBuilder::new().build();
    assert_eq!(blank.links, Some(Vec::new()));
    assert_eq!(blank.ip_prefix_len, 0);
    assert_eq!(blank.driver_opts.as_ref().unwrap().len(), 0);

    let settings = NetworkSettingsBuilder::new()
        .add_config("bridge".to_string(), &network)
        .add_config("none".to_string(), &blank)
        .add_config("bridge".to_string(), &blank)
        .build();
    assert_eq!(keys(&settings.networks), vec!["bridge", "none"]);
    assert_eq!(settings.networks.get("bridge").unwrap().network_id, "");
    assert_eq!(settings.clone().networks.len(), 2);
}

#[test]
fn config_builder_sets_each_field() {
    let mut health = HealthCheck::new();
    health.test("true");
    let mut host = HostConfigBuilder::new();
    host.auto_remove(true);
    let mut builder = Config::with_image("alpine");
    builder
        .hostname("h")
        .domain_name("d")
        .user("u")
        .attach_stdin(true)
        .attach_stdout(false)
        .attach_stderr(true)
        .expose_port("22/tcp")
        .expose_port("80/tcp")
        .expose_port("22/tcp")
        .tty(true)
        .open_stdin(false)
        .stdin_once(true)
        .env("A=1")
        .env("B=2")
        .cmd("echo")
        .cmd("hi")
        .health_check(Some(health.build()))
        .args_escaped(true)
        .volume("/data")
        .work_dir("/srv")
        .entry_point("/bin/sh")
        .network_disabled(false)
        .mac_address("1A:2B:3C:4D:5E:6F")
        .on_build("RUN x")
        .label("k", "v")
        .label("k", "w")
        .stop_signal("SIGTERM")
        .stop_timeout(Some(10))
        .shell("sh")
        .host_config(host.build())
        .network_config(Some(NetworkSettingsBuilder::new().build()));
    assert_eq!(builder.mac_address.as_deref(), Some("1A:2B:3C:4D:5E:6F"));
    assert_eq!(builder.stop_signal.as_deref(), Some("SIGTERM"));
    assert_eq!(builder.stop_timeout, Some(10));
    assert_eq!(builder.on_build, vec!["RUN x"]);
    assert_eq!(builder.shell, vec!["sh"]);
    assert_eq!(builder.args_escaped, Some(true));
    let config = builder.build();
    assert_eq!(config.image.as_deref(), Some("alpine"));
    assert_eq!(config.hostname.as_deref(), Some("h"));
    assert_eq!(config.domain_name.as_deref(), Some("d"));
    assert_eq!(config.user.as_deref(), Some("u"));
    assert_eq!(config.attach_stdin, Some(true));
    assert_eq!(config.attach_stdout, Some(false));
    assert_eq!(config.attach_stderr, Some(true));
    assert_eq!(keys(&config.exposed_ports), vec!["22/tcp", "80/tcp"]);
    assert_eq!(config.exposed_ports.get("80/tcp"), Some(&EmptyObject));
    assert_eq!(config.tty, Some(true));
    assert_eq!(config.open_stdin, Some(false));
    assert_eq!(config.stdin_once, Some(true));
    assert_eq!(config.env, vec!["A=1", "B=2"]);
    assert_eq!(config.cmd, vec!["echo", "hi"]);
    assert_eq!(config.health_check.as_ref().unwrap().test, vec!["true"]);
    assert_eq!(keys(&config.volumes), vec!["/data"]);
    assert_eq!(config.work_dir.as_deref(), Some("/srv"));
    assert_eq!(config.entry_point, vec!["/bin/sh"]);
    assert_eq!(config.network_disabled, Some(false));
    assert_eq!(config.labels.get("k").map(|s| s.as_str()), Some("w"));
    assert!(config.host_config.as_ref().unwrap().auto_remove);
    assert_eq!(config.network_config.as_ref().unwrap().networks.len(), 0);
    assert_eq!(config.clone().env, config.env);

    let blank = Config::new().build();
    assert_eq!(blank.image, None);
    assert!(blank.env.is_empty());
    assert!(blank.host_config.is_none());
    assert_eq!(Config::default().image, None);
}

#[test]
fn create_request_names_the_container() {
    let mut settings = Config::with_image("alpine");
    settings.cmd("true");
    let create = Create::new().config(settings.build()).name("test").build();
    assert_eq!(create.name, "test");
    assert_eq!(create.config.image.as_deref(), Some("alpine"));
    assert_eq!(create.get_path(), "/containers/create?name=test");
    let unnamed = CreateBuilder::with_config(Config::default()).build();
    assert_eq!(unnamed.get_path(), "/containers/create");
    assert_eq!(Create::new().build().config.image, None);
}

#[test]
fn named_config_has_a_path() {
    let mut builder = config::Config::with_image("alpine");
    builder.name("test").expose_port("22/tcp").hostname("example").network_disabled(false).cmd("echo hi");
    let settings = builder.build();
    assert_eq!(settings.name.as_deref(), Some("test"));
    assert_eq!(settings.image.as_deref(), Some("alpine"));
    assert_eq!(settings.get_path(), "/containers/create?name=test");
    assert_eq!(config::Config::new().build().get_path(), "/containers/create");
    assert_eq!(config::ConfigBuilder::new().build().image, None);
}

#[test]
fn creator_makes_its_request() {
    let mut builder = Creator::with_image("alpine");
    builder.name("test").env("A=1");
    let creator = builder.build();
    let request = creator.to_request("{\"Image\":\"alpine\"}");
    assert_eq!(
        request.to_string(),
        "POST /containers/create?name=test HTTP/1.1\r\nHost: 127.0.0.1\r\nContent-Length: 18\r\n\
         Content-Type: application/json\r\n\r\n{\"Image\":\"alpine\"}"
    );
    let unnamed = Creator::new().build().to_request("{}");
    assert!(unnamed.to_string().starts_with("POST /containers/create HTTP/1.1\r\n"));
}

#[test]
fn killer_has_a_path_and_a_request() {
    let killer = Killer::new().id("web").signal("SIGKILL").build();
    assert_eq!(killer.get_path(), "/containers/web/kill?signal=SIGKILL");
    assert_eq!(
        killer.to_request().to_string(),
        "POST /containers/web/kill?signal=SIGKILL HTTP/1.1\r\nHost: 127.0.0.1\r\n\r\n"
    );
    let plain = Killer::new().id("web").build();
    assert_eq!(plain.get_path(), "/containers/web/kill");
    assert_eq!(
        plain.to_request().to_string(),
        "POST /containers/web/kill HTTP/1.1\r\nHost: 127.0.0.1\r\n\r\n"
    );
}

#[test]
fn remover_lists_what_was_set() {
    let mut builder = Remover::new();
    builder.id("web");
    assert_eq!(builder.build().get_path(), "/containers/web/remove");
    builder.with_force_delete(true);
    assert_eq!(builder.build().get_path(), "/containers/web/remove?force=true");
    builder.with_remove_volumes(false).with_remove_link(true);
    assert_eq!(builder.build().get_path(), "/containers/web/remove?v=false&force=true&link=true");
}

#[test]
fn inspect_asks_for_sizes() {
    let mut inspect = Inspect::container("web".to_string());
    assert_eq!(inspect.get_path(), "/containers/web/json?size=false");
    inspect.size(true);
    assert_eq!(inspect.get_path(), "/containers/web/json?size=true");
    inspect.size(false);
    assert_eq!(inspect.get_path(), "/containers/web/json?size=false");
}

#[test]
fn processes_list_hands_arguments_to_ps() {
    let mut list = ProcessesList::container("web".to_string());
    assert_eq!(list.get_path(), "/containers/web/top");
    list.ps_args("aux".to_string());
    assert_eq!(list.get_path(), "/containers/web/top?ps_args=aux");
}

#[test]
fn filters_are_written_as_json() {
    let mut builder = Filters::new();
    builder.label("tier", Some("web".to_string())).label("debug", None).label("q", Some("a\"b".to_string()));
    let filters = builder.build();
    assert_eq!(filters.items(), vec!["tier=web", "debug", "q=a\"b"]);
    assert_eq!(
        filters.to_json().as_deref(),
        Some("{\"label\":[\"tier=web\",\"debug\",\"q=a\\\"b\"]}")
    );
    assert_eq!(filters.label().len(), 3);
    assert_eq!(Filters::wrap("[]"), "{\"label\":[]}");
    assert_eq!(Filters::new().build().to_json().as_deref(), Some("{\"label\":[]}"));
}

#[test]
fn list_request_escapes_its_filters() {
    assert_eq!(ListRequest::new().build().get_path().as_deref(), Some("/containers/json"));
    let mut builder = ListRequest::new();
    builder.all(true).limit(5).size(false);
    assert_eq!(
        builder.build().get_path().as_deref(),
        Some("/containers/json?all=true&limit=5&size=false")
    );
    let mut filters = Filters::new();
    filters.label("tier", Some("web".to_string()));
    let mut builder = ListRequest::new();
    builder.limit(-1).filters(filters.build());
    let request = builder.build();
    assert_eq!(
        request.get_path().as_deref(),
        Some("/containers/json?limit=-1&filters={%22label%22:[%22tier=web%22]}")
    );
    assert_eq!(request.path_with("\"x\""), "/containers/json?limit=-1&filters=%22x%22");
    assert_eq!(ListRequest::percent_encoded("a\"b\"\u{e9}"), "a%22b%22\u{e9}");
    assert_eq!(ListRequest::percent_encoded(""), "");
    assert_eq!(request.clone().limit, Some(-1));
}

#[test]
fn exec_request_collects_its_command() {
    let mut builder = exec::Request::with_container("web");
    builder
        .add_command("ls")
        .add_commands(vec!["-l".to_string(), "/".to_string()])
        .user("root")
        .attach_stdin(true)
        .attach_stdout(true)
        .attach_stderr(false);
    let request = builder.build();
    assert_eq!(request.cmd, vec!["ls", "-l", "/"]);
    assert_eq!(request.user, "root");
    assert!(request.attach_stdin && request.attach_stdout && !request.attach_stderr);
    assert_eq!(request.get_path(), "/containers/web/exec");
    let blank = exec::RequestBuilder::default().build();
    assert_eq!(blank.id, "");
    assert!(blank.cmd.is_empty());
}

#[test]
fn image_request_defaults_to_the_latest_tag() {
    let request = image::create::RequestBuilder::new().image("ubuntu").build();
    assert_eq!(request.image(), "ubuntu");
    assert_eq!(request.tag(), "latest");
    assert_eq!(request.get_path(), "/images/create?fromImage=ubuntu&tag=latest");
    let request = image::create::RequestBuilder::new()
        .source("http://x/y.tar")
        .repo("r")
        .tag("1.2")
        .message("m")
        .platform("linux/amd64")
        .build();
    assert_eq!(request.source(), "http://x/y.tar");
    assert_eq!(request.repo(), "r");
    assert_eq!(request.tag(), "1.2");
    assert_eq!(request.message(), "m");
    assert_eq!(request.platform(), "linux/amd64");
    assert_eq!(
        request.get_path(),
        "/images/create?fromSrc=http://x/y.tar&repo=r&tag=1.2&message=m&platform=linux/amd64"
    );
}

#[test]
fn network_requests_have_their_paths() {
    let mut connect = networks::connect::RequestBuilder::with_name("net");
    connect.container("web");
    let connect = connect.build();
    assert_eq!(connect.container, "web");
    assert_eq!(connect.get_path(), "/networks/net/connect");

    let inspect = networks::inspect::RequestBuilder::with_name("net").build();
    assert_eq!(inspect.get_path(), "/networks/net?");
    let mut builder = networks::inspect::Request::new();
    builder.id = "net".to_string();
    builder.verbose = true;
    assert_eq!(builder.build().get_path(), "/networks/net?verbose=true&");
    let mut builder = networks::inspect::RequestBuilder::with_name("net");
    builder.verbose = true;
    builder.scope = "swarm".to_string();
    assert_eq!(builder.build().get_path(), "/networks/net?verbose=true&scope=swarm");

    let create = networks::create::RequestBuilder::with_name("net").build();
    assert_eq!(create.name, "net");
    assert!(create.check_duplicate);
    assert_eq!(create.driver, "bridge");
    assert!(!create.internal && !create.attachable && !create.ingress && !create.enable_ipv6);
    assert_eq!(create.ip_am.driver, "default");
    assert_eq!(create.get_path(), "/networks/create");

    let mut subnet: Dict<String> = Dict::new();
    subnet.insert("Subnet", "10.0.0.0/24".to_string());
    let ipam = networks::create::IPAMBuilder::new()
        .driver("custom")
        .add_config(subnet)
        .add_option("a", "b")
        .build();
    assert_eq!(ipam.driver, "custom");
    assert_eq!(ipam.config.len(), 1);
    assert_eq!(ipam.config[0].get("Subnet").map(|s| s.as_str()), Some("10.0.0.0/24"));
    assert_eq!(ipam.options.get("a").map(|s| s.as_str()), Some("b"));
    assert_eq!(ipam.clone().config.len(), 1);
}

#[test]
fn volume_creator_collects_options_and_labels() {
    let mut builder = VolumeCreator::builder();
    builder
        .name("volume-test")
        .driver("local")
        .driver_opt("type", "tmpfs")
        .label("label1", "label-value")
        .label("label2", "label-3");
    let volume = builder.build();
    assert_eq!(volume.name, "volume-test");
    assert_eq!(volume.driver, "local");
    assert_eq!(volume.driver_opts.get("type").map(|s| s.as_str()), Some("tmpfs"));
    assert_eq!(keys(&volume.labels), vec!["label1", "label2"]);
}

#[test]
fn wait_conditions_have_their_texts() {
    assert_eq!(WaitCondition::NotRunning.to_string(), "not-running");
    assert_eq!(WaitCondition::NextExit.to_string(), "next-exit");
    assert_eq!(WaitCondition::Removed.to_string(), "removed");
    assert_eq!(WaitCondition::default(), WaitCondition::NotRunning);
}
