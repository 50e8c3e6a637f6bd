use elysia::hoyoplay::{get_game_content_url, get_games_url, ApiResponse, GameInfo, ImageLink};

#[test]
fn game_list_url_is_exact() {
    assert_eq!(
        get_games_url(),
        "https://sg-hyp-api.hoyoverse.com/hyp/hyp-connect/api/getGames?launcher_id=VYTpXlbWo8&language=en-us"
    );
}

#[test]
fn game_content_url_carries_the_game_id() {
    assert_eq!(
        get_game_content_url("U5hbdsT9W7"),
        "https://sg-hyp-api.hoyoverse.com/hyp/hyp-connect/api/getGameContent?game_id=U5hbdsT9W7&launcher_id=VYTpXlbWo8&language=en-us"
    );
}

#[test]
fn api_shapes_carry_their_fields() {
    let resp = ApiResponse {
        retcode: 0,
        message: "OK".to_string(),
        data: GameInfo { id: "U5hbdsT9W7".to_string(), biz: "nap_global".to_string() },
    };
    assert_eq!(resp.retcode, 0);
    assert_eq!(resp.data.biz, "nap_global");
    let link = ImageLink {
        url: "https://example.invalid/bg.png".to_string(),
        link: String::new(),
        login_state_in_link: false,
    };
    assert_eq!(link.url, "https://example.invalid/bg.png");
}
