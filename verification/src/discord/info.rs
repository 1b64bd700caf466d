//! Everything that a notification says about a stream.

use vstd::prelude::*;

use crate::text::opt_text;
use crate::time::{zoned, ZonedModel, ZonedTime};

verus! {

/// What a notification says about a stream.
#[verifier::ext_equal]
pub struct InfoModel {
    pub game_name: Seq<char>,
    pub viewer_count: nat,
    pub started_at: Option<ZonedModel>,
    pub user_name: Seq<char>,
    pub user_login: Seq<char>,
    pub user_icon: Option<Seq<char>>,
    pub game_id: Seq<char>,
    pub stream_id: Seq<char>,
    pub stream_title: Seq<char>,
    pub stream_thumbnail: Seq<char>,
    pub video_id: Option<Seq<char>>,
    pub format_online: Option<Seq<char>>,
    pub format_offline: Option<Seq<char>>,
    pub ping: Option<Seq<char>>,
    pub offline: bool,
}

/// Stores everything that makes a notification. All of it can be read back
/// from the message that was sent.
#[derive(Debug)]
pub struct StreamInfo {
    pub game_name: String,
    pub viewer_count: usize,
    pub started_at: Option<ZonedTime>,
    pub user_name: String,
    pub user_login: String,
    pub user_icon: Option<String>,
    pub game_id: String,
    pub stream_id: String,
    pub stream_title: String,
    pub stream_thumbnail: String,
    pub video_id: Option<String>,
    pub format_online: Option<String>,
    pub format_offline: Option<String>,
    pub ping: Option<String>,
    pub offline: bool,
}

impl View for StreamInfo {
    type V = InfoModel;

    open spec fn view(&self) -> InfoModel {
        InfoModel {
            game_name: self.game_name@,
            viewer_count: self.viewer_count as nat,
            started_at: zoned(self.started_at),
            user_name: self.user_name@,
            user_login: self.user_login@,
            user_icon: opt_text(self.user_icon),
            game_id: self.game_id@,
            stream_id: self.stream_id@,
            stream_title: self.stream_title@,
            stream_thumbnail: self.stream_thumbnail@,
            video_id: opt_text(self.video_id),
            format_online: opt_text(self.format_online),
            format_offline: opt_text(self.format_offline),
            ping: opt_text(self.ping),
            offline: self.offline,
        }
    }
}

impl Clone for StreamInfo {
    fn clone(&self) -> (r: StreamInfo)
        ensures
            r == *self,
    {
        StreamInfo {
            game_name: self.game_name.clone(),
            viewer_count: self.viewer_count,
            started_at: self.started_at,
            user_name: self.user_name.clone(),
            user_login: self.user_login.clone(),
            user_icon: self.user_icon.clone(),
            game_id: self.game_id.clone(),
            stream_id: self.stream_id.clone(),
            stream_title: self.stream_title.clone(),
            stream_thumbnail: self.stream_thumbnail.clone(),
            video_id: self.video_id.clone(),
            format_online: self.format_online.clone(),
            format_offline: self.format_offline.clone(),
            ping: self.ping.clone(),
            offline: self.offline,
        }
    }
}

} // verus!
