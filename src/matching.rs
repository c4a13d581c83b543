use vstd::prelude::*;
use crate::commander::{Command, Commander};

verus! {

/// A strategy that carries the one manifest its commands accept.
pub struct PatternStrategy {
    pub pattern: String,
}

/// A command that builds only from a manifest equal to the strategy's
/// pattern. It works with any bridge and does not look at it.
#[derive(Debug, PartialEq, Eq, Structural)]
pub struct MatchCommand {}

impl<B> Command<B, PatternStrategy> for MatchCommand {
    open spec fn outcome(bridge: B, strategy: PatternStrategy, manifest: Seq<char>) -> Result<
        MatchCommand,
        Seq<char>,
    > {
        if manifest == strategy.pattern@ {
            Ok(MatchCommand {  })
        } else {
            Err("failed"@)
        }
    }

    fn execute(_bridge: &B, strategy: &PatternStrategy, manifest: &str) -> (r: Result<
        MatchCommand,
        String,
    >) {
        let given = String::from_str(manifest);
        if given == strategy.pattern {
            Ok(MatchCommand {  })
        } else {
            Err(String::from_str("failed"))
        }
    }
}

/// Dispatching the strategy's own pattern to `MatchCommand` builds it.
pub proof fn lemma_pattern_builds<B, C: Commander<B, PatternStrategy>>(client: C)
    ensures
        <MatchCommand as Command<B, PatternStrategy>>::outcome(
            client.bridge_of(),
            client.strategy_of(),
            client.strategy_of().pattern@,
        ) == Ok::<MatchCommand, Seq<char>>(MatchCommand {  }),
{
}

/// Dispatching any other manifest to `MatchCommand` fails with the mismatch
/// error.
pub proof fn lemma_other_manifest_fails<B, C: Commander<B, PatternStrategy>>(
    client: C,
    manifest: Seq<char>,
)
    requires
        manifest != client.strategy_of().pattern@,
    ensures
        <MatchCommand as Command<B, PatternStrategy>>::outcome(
            client.bridge_of(),
            client.strategy_of(),
            manifest,
        ) == Err::<MatchCommand, Seq<char>>("failed"@),
{
}


} // verus!
