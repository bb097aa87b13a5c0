use node_logger::directive::{Directive, DirectiveSet};
use node_logger::filter::{build_pair, compile, extend};
use node_logger::level::Level;
use node_logger::resolver::{level_of, resolve};
use node_logger::scope::Scope;
use tracing_subscriber::filter::LevelFilter;
use tracing_subscriber::EnvFilter;

const ORDER: [Scope; 11] = [
    Scope::Global,
    Scope::Mio,
    Scope::TokioUtil,
    Scope::Hyper,
    Scope::Reqwest,
    Scope::Want,
    Scope::Warp,
    Scope::Gateway,
    Scope::Narwhal,
    Scope::Router,
    Scope::Tcp,
];

fn shown(filter: &EnvFilter) -> Vec<String> {
    let mut parts: Vec<String> = filter.to_string().split(',').map(|s| s.to_string()).collect();
    parts.sort();
    parts
}

fn sorted(parts: &[&str]) -> Vec<String> {
    let mut parts: Vec<String> = parts.iter().map(|s| s.to_string()).collect();
    parts.sort();
    parts
}

#[test]
fn compiled_filter_holds_the_directives_of_verbosity_zero() {
    let filter = compile(&resolve(0));
    assert_eq!(
        shown(&filter),
        sorted(&[
            "info",
            "mio=off",
            "tokio_util=off",
            "hyper=off",
            "reqwest=off",
            "want=off",
            "warp=off",
            "snarkos_node_narwhal::gateway=debug",
            "snarkos_node_narwhal=debug",
            "snarkos_node_router=off",
            "snarkos_node_tcp=off",
        ])
    );
    assert_eq!(filter.max_level_hint(), Some(LevelFilter::DEBUG));
}

#[test]
fn compiled_filter_holds_the_directives_of_verbosity_six() {
    let filter = compile(&resolve(6));
    assert_eq!(
        shown(&filter),
        sorted(&[
            "trace",
            "mio=off",
            "tokio_util=off",
            "hyper=off",
            "reqwest=off",
            "want=off",
            "warp=off",
            "snarkos_node_narwhal::gateway=trace",
            "snarkos_node_narwhal=trace",
            "snarkos_node_router=trace",
            "snarkos_node_tcp=off",
        ])
    );
    assert_eq!(filter.max_level_hint(), Some(LevelFilter::TRACE));
}

#[test]
fn compiled_filter_holds_the_table_at_every_verbosity() {
    for verbosity in 0..=255u8 {
        let filter = compile(&resolve(verbosity));
        let mut expected = Vec::new();
        for scope in ORDER.iter() {
            let word = level_of(verbosity, *scope).name();
            expected.push(match scope.target() {
                Some(path) => format!("{}={}", path, word),
                None => word.to_string(),
            });
        }
        expected.sort();
        assert_eq!(shown(&filter), expected);
    }
}

#[test]
fn empty_set_compiles_to_a_filter_without_directives() {
    let filter = compile(&DirectiveSet::new());
    assert_eq!(filter.to_string(), "");
    assert_eq!(filter.max_level_hint(), Some(LevelFilter::OFF));
}

#[test]
fn in_a_filter_too_the_later_directive_wins() {
    let mut set = DirectiveSet::new();
    set.add(Directive { scope: Scope::Router, level: Level::Off });
    set.add(Directive { scope: Scope::Global, level: Level::Info });
    set.add(Directive { scope: Scope::Router, level: Level::Debug });
    set.add(Directive { scope: Scope::Global, level: Level::Trace });
    let filter = compile(&set);
    assert_eq!(shown(&filter), sorted(&["trace", "snarkos_node_router=debug"]));
}

#[test]
fn the_pair_is_compiled_from_the_same_directives() {
    for verbosity in 0..=10u8 {
        let (terminal, file) = build_pair(&resolve(verbosity));
        assert_eq!(terminal.to_string(), file.to_string());
        assert_eq!(terminal.max_level_hint(), file.max_level_hint());
        assert_eq!(shown(&terminal), shown(&compile(&resolve(verbosity))));
        assert_eq!(shown(&terminal).len(), 11);
    }
}

#[test]
fn every_directive_is_read_as_it_is_written() {
    let levels = [Level::Off, Level::Info, Level::Debug, Level::Trace];
    for scope in ORDER.iter() {
        for level in levels.iter() {
            let directive = Directive { scope: *scope, level: *level };
            let filter = extend(EnvFilter::default(), directive);
            assert_eq!(filter.to_string(), directive.text());
        }
    }
}

#[test]
fn extending_replaces_the_directive_of_the_same_scope_only() {
    let filter = extend(
        EnvFilter::default(),
        Directive { scope: Scope::Mio, level: Level::Trace },
    );
    let filter = extend(filter, Directive { scope: Scope::Want, level: Level::Info });
    let filter = extend(filter, Directive { scope: Scope::Mio, level: Level::Off });
    assert_eq!(shown(&filter), sorted(&["mio=off", "want=info"]));
}
