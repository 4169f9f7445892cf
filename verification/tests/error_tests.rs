use replay_diff::service_error::ServiceError;

#[test]
fn message_of_each_error() {
    assert_eq!(ServiceError::EmptyNewUrl.message(), "input new_url is empty");
    assert_eq!(ServiceError::EmptyOldUrl.message(), "input old_url is empty");
    assert_eq!(
        ServiceError::UnsupportedMethod("PUT".to_string()).message(),
        "unkonw request method :PUT"
    );
    assert_eq!(ServiceError::UnsupportedMethod(String::new()).message(), "unkonw request method :");
    assert_eq!(
        ServiceError::Transport("Timeout was reached".to_string()).message(),
        "Timeout was reached"
    );
    assert_eq!(ServiceError::ChannelClosed.message(), "send to channel fail");
}
