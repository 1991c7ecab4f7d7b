use up::ghapi::{Asset, Timestamp};
use up::ui::{choose_index, choose_one, ChoiceError, Choosable};

fn asset(name: &str) -> Asset {
    Asset {
        name: name.to_string(),
        url: String::new(),
        size: 10,
        label: None,
        updated_at: Timestamp { secs: 0, nanos: 0 },
        browser_download_url: String::new(),
    }
}

#[test]
fn choose_one_gives_the_option_picked() {
    let options = vec![asset("a"), asset("b"), asset("c")];
    assert_eq!(choose_one(&options, Some(1)), Ok(&options[1]));
    assert_eq!(choose_one(&options, Some(0)), Ok(&options[0]));
    assert_eq!(choose_one(&options, Some(2)), Ok(&options[2]));
}

#[test]
fn choose_one_without_options() {
    let options: Vec<Asset> = Vec::new();
    assert_eq!(choose_one(&options, Some(0)), Err(ChoiceError::NoChoices));
    assert_eq!(choose_one(&options, None), Err(ChoiceError::NoChoices));
}

#[test]
fn choose_one_cancelled() {
    let options = vec![asset("a")];
    assert_eq!(choose_one(&options, None), Err(ChoiceError::Cancelled));
    assert_eq!(choose_one(&options, Some(1)), Err(ChoiceError::Cancelled));
    assert_eq!(choose_index(3, Some(3)), Err(ChoiceError::Cancelled));
    assert_eq!(choose_index(3, Some(2)), Ok(2));
}

#[test]
fn choice_error_messages() {
    assert_eq!(ChoiceError::NoChoices.message(), "No choices available!");
    assert_eq!(ChoiceError::Cancelled.message(), "cancelled.");
}

#[test]
fn choosable_line_is_the_line_of_the_item() {
    let a = asset("tool");
    assert_eq!(Choosable::to_string(&a), a.to_string());
}
