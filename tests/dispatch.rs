use commander::{Client, ClientBuilder, Commander, MatchCommand, PatternStrategy};

struct ExampleBridge;

fn command() -> MatchCommand {
    MatchCommand {}
}

fn error() -> Result<MatchCommand, String> {
    Err("failed".to_string())
}

fn client() -> Client<ExampleBridge, PatternStrategy> {
    Client::new(ExampleBridge, PatternStrategy { pattern: String::from("works") })
}

#[test]
fn positive() {
    let i = client();
    let e = command();
    let o = i.execute::<MatchCommand>("works").unwrap();
    assert_eq!(e, o)
}

#[test]
fn negative() {
    let i = client();
    let e = error();
    let o = i.execute::<MatchCommand>("");
    assert_eq!(e, o)
}

#[test]
fn other_manifests_fail() {
    let i = client();
    for m in ["work", "works ", "Works", "worksworks", "x"] {
        assert_eq!(i.execute::<MatchCommand>(m), error());
    }
}

#[test]
fn empty_pattern_accepts_only_empty_manifest() {
    let i = Client::new((), PatternStrategy { pattern: String::new() });
    assert_eq!(i.execute::<MatchCommand>(""), Ok(MatchCommand {}));
    assert_eq!(i.execute::<MatchCommand>("works"), error());
}

#[test]
fn non_ascii_pattern() {
    let i = Client::new(7u8, PatternStrategy { pattern: String::from("grüße") });
    assert_eq!(i.execute::<MatchCommand>("grüße"), Ok(MatchCommand {}));
    assert_eq!(i.execute::<MatchCommand>("gruße"), error());
}

#[test]
fn execute_twice_gives_equal_results() {
    let i = client();
    assert_eq!(i.execute::<MatchCommand>("works"), i.execute::<MatchCommand>("works"));
    assert_eq!(i.execute::<MatchCommand>("nope"), i.execute::<MatchCommand>("nope"));
}

#[test]
fn accessors_return_what_new_took() {
    let i = Client::new(42u32, PatternStrategy { pattern: String::from("p") });
    assert_eq!(*i.get_bridge(), 42u32);
    assert_eq!(i.get_strategy().pattern, "p");
}

#[test]
fn builder_builds_from_both_setters() {
    let mut b = ClientBuilder::new();
    b.set_strategy(PatternStrategy { pattern: String::from("works") }).set_bridge(5u16);
    let c = b.build();
    assert_eq!(*c.get_bridge(), 5u16);
    assert_eq!(c.get_strategy().pattern, "works");
    assert_eq!(c.execute::<MatchCommand>("works"), Ok(MatchCommand {}));
}

#[test]
fn builder_last_write_wins() {
    let mut b = ClientBuilder::new();
    b.set_bridge(1u8).set_bridge(2u8);
    b.set_strategy(PatternStrategy { pattern: String::from("a") });
    b.set_strategy(PatternStrategy { pattern: String::from("b") });
    let c = b.build();
    assert_eq!(*c.get_bridge(), 2u8);
    assert_eq!(c.get_strategy().pattern, "b");
}

#[test]
fn builder_can_build_again_after_refilling() {
    let mut b = ClientBuilder::new();
    b.set_bridge(1u8).set_strategy(PatternStrategy { pattern: String::from("a") });
    let first = b.build();
    b.set_bridge(3u8).set_strategy(PatternStrategy { pattern: String::from("c") });
    let second = b.build();
    assert_eq!(*first.get_bridge(), 1u8);
    assert_eq!(*second.get_bridge(), 3u8);
    assert_eq!(second.get_strategy().pattern, "c");
}
