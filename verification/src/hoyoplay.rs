//! The shapes of the game-catalog API that the launcher reads, and the
//! request URLs it asks them from. The network call and the JSON decoding of
//! the responses live with the caller; the cached transport goes through the
//! request cache.
use vstd::prelude::*;

verus! {

/// The envelope every API response arrives in.
#[derive(Debug, Clone, PartialEq)]
pub struct ApiResponse<DataType> {
    pub retcode: i32,
    pub message: String,
    pub data: DataType,
}

/// An image with interaction metadata.
#[derive(Debug, Clone, PartialEq)]
pub struct Image {
    pub url: String,
    pub hover_url: String,
    pub link: String,
    pub login_state_in_link: bool,
    pub md5: String,
    pub size: u64,
}

/// A bare image link.
#[derive(Debug, Clone, PartialEq)]
pub struct ImageLink {
    pub url: String,
    pub link: String,
    pub login_state_in_link: bool,
}

/// The game a content payload belongs to.
#[derive(Debug, Clone, PartialEq)]
pub struct GameInfo {
    pub id: String,
    pub biz: String,
}

/// A rotating banner on a game's page.
#[derive(Debug, Clone, PartialEq)]
pub struct Banner {
    pub id: String,
    pub image: ImageLink,
    pub i18n_identifier: String,
}

/// A news post on a game's page.
#[derive(Debug, Clone, PartialEq)]
pub struct Post {
    pub id: String,
    pub post_type: String,
    pub title: String,
    pub link: String,
    pub date: String,
    pub login_state_in_link: bool,
    pub i18n_identifier: String,
}

/// The request URL for the game list.
pub open spec fn spec_get_games_url() -> Seq<char> {
    "https://sg-hyp-api.hoyoverse.com/hyp/hyp-connect/api/getGames?launcher_id=VYTpXlbWo8&language=en-us"@
}

/// The request URL for one game's content, keyed by the game id.
pub open spec fn spec_get_game_content_url(game_id: Seq<char>) -> Seq<char> {
    "https://sg-hyp-api.hoyoverse.com/hyp/hyp-connect/api/getGameContent?game_id="@ + game_id
        + "&launcher_id=VYTpXlbWo8&language=en-us"@
}

pub fn get_games_url() -> (r: String)
    ensures
        r@ == spec_get_games_url(),
{
    String::from_str(
        "https://sg-hyp-api.hoyoverse.com/hyp/hyp-connect/api/getGames?launcher_id=VYTpXlbWo8&language=en-us",
    )
}

pub fn get_game_content_url(game_id: &str) -> (r: String)
    ensures
        r@ == spec_get_game_content_url(game_id@),
{
    let mut url = String::from_str(
        "https://sg-hyp-api.hoyoverse.com/hyp/hyp-connect/api/getGameContent?game_id=",
    );
    url.append(game_id);
    url.append("&launcher_id=VYTpXlbWo8&language=en-us");
    url
}

} // verus!
