use newsletter::flash::{render, render_errors, FlashMessage, Level};
use newsletter::newsletters::published_notice;

fn message(level: Level, content: &str) -> FlashMessage {
    FlashMessage { level, content: content.into() }
}

#[test]
fn no_messages_render_as_nothing() {
    assert_eq!(render(&vec![]), "");
    assert_eq!(render_errors(&vec![]), "");
}

#[test]
fn each_message_is_a_paragraph_on_its_own_line() {
    let messages = vec![message(Level::Info, "first"), message(Level::Error, "second")];
    assert_eq!(render(&messages), "<p><i>first</i></p>\n<p><i>second</i></p>\n");
}

#[test]
fn only_errors_are_shown_on_the_password_form() {
    let messages = vec![
        message(Level::Error, "The current password is incorrect."),
        message(Level::Info, "not shown"),
        message(Level::Warning, "not shown either"),
        message(Level::Error, "second error"),
        message(Level::Success, "nor this"),
        message(Level::Debug, "nor this"),
    ];
    assert_eq!(
        render_errors(&messages),
        "<p><i>The current password is incorrect.</i></p>\n<p><i>second error</i></p>\n"
    );
}

#[test]
fn the_notice_of_a_publication_names_the_title() {
    assert_eq!(published_notice("Title"), "Your newsletter 'Title' has been published.");
    let page = render(&vec![message(Level::Info, &published_notice("Title"))]);
    assert!(page.contains("has been published.</i></p>"));
}

#[test]
fn the_content_is_put_in_as_it_is() {
    assert_eq!(render(&vec![message(Level::Info, "<b>&</b>")]), "<p><i><b>&</b></i></p>\n");
}
