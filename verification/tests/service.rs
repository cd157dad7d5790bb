use pfpet::avatars::discord::Discord;
use pfpet::avatars::reddit::Reddit;
use pfpet::service::cache_control;

#[test]
fn cache_control_header() {
    let (name, value) = cache_control::<Discord>();
    assert_eq!(name, "Cache-Control");
    assert_eq!(value, "max-age=1800");
    assert_eq!(cache_control::<Reddit>().1, format!("max-age={}", 1800));
}
