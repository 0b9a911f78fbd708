use thus_saith::config::{
    Config, ConfigPatch, Messages, MessagesPatch, Pace, PacePatch, RawQuote,
};
use thus_saith::number::Number;

fn base() -> Config {
    Config {
        pace: Pace { mean: Number::Finite(100_000), stddev: Number::Finite(20_000) },
        messages: Messages { interrupt: "bye".to_string() },
        quotes: vec![RawQuote { weight: None, content: "old".to_string() }],
    }
}

#[test]
fn empty_patch_changes_nothing() {
    let mut config = base();
    config.patch(ConfigPatch { pace: None, messages: None, quotes: None });
    assert_eq!(config.pace, base().pace);
    assert_eq!(config.messages.interrupt, "bye");
    assert_eq!(config.quotes.len(), 1);
    assert_eq!(config.quotes[0].content, "old");
}

#[test]
fn present_fields_replace_their_targets() {
    let mut config = base();
    config.patch(ConfigPatch {
        pace: Some(PacePatch { mean: None, stddev: Some(Number::Finite(0)) }),
        messages: Some(MessagesPatch { interrupt: Some("stop".to_string()) }),
        quotes: Some(vec![
            RawQuote { weight: Some(Number::Finite(2000)), content: "x".to_string() },
            RawQuote { weight: None, content: "y".to_string() },
        ]),
    });
    assert_eq!(config.pace.mean, Number::Finite(100_000));
    assert_eq!(config.pace.stddev, Number::Finite(0));
    assert_eq!(config.messages.interrupt, "stop");
    assert_eq!(config.quotes.len(), 2);
    assert_eq!(config.quotes[0].weight, Some(Number::Finite(2000)));
    assert_eq!(config.quotes[1].content, "y");
}

#[test]
fn absent_interrupt_keeps_the_message() {
    let mut config = base();
    config.patch(ConfigPatch {
        pace: Some(PacePatch { mean: Some(Number::Finite(50_000)), stddev: None }),
        messages: Some(MessagesPatch { interrupt: None }),
        quotes: None,
    });
    assert_eq!(config.pace.mean, Number::Finite(50_000));
    assert_eq!(config.pace.stddev, Number::Finite(20_000));
    assert_eq!(config.messages.interrupt, "bye");
}
