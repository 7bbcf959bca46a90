//! Upstream credentials and the platform provider's response handling.
use vstd::prelude::*;
use vstd::string::*;

verus! {

/// Where, and with which credential, media of an accepted publish is pushed upstream.
pub struct Authentication {
    /// The upstream target, `rtmp://host[:port]/app`.
    pub url: String,
    /// The publish credential (stream key), if the platform gives one.
    pub key: Option<String>,
}

/// The envelope of every answer of the live platform's HTTP API.
pub struct Response<T> {
    pub code: i32,
    pub message: String,
    pub data: Option<T>,
}

/// The push address and stream code of a room.
pub struct Rtmp {
    pub addr: String,
    pub code: String,
}

/// Payload of the "stream by room id" query.
pub struct GetStreamByRoomId {
    pub rtmp: Rtmp,
}

/// Payload of the "live info" query of the logged-in user.
pub struct LiveInfo {
    pub roomid: String,
}

/// The message with which a response without payload is turned down.
pub open spec fn missing_data_message() -> Seq<char> {
    "get_stream_by_roomId failed"@
}

/// The path of the query that lists the push streams of a room.
pub open spec fn stream_list_prefix() -> Seq<char> {
    "https://api.live.bilibili.com/live_stream/v1/StreamList/get_stream_by_roomId?room_id="@
}

/// Authentication provider of the bilibili live platform. The stream key handed to it is
/// the session cookie of the account; the HTTP exchange itself is run by the caller, which
/// hands the decoded responses to the methods below.
pub struct BilibiliService {}

impl BilibiliService {
    pub fn new() -> (r: Self) {
        BilibiliService {}
    }

    /// The address of the query that yields the push address of `room_id`.
    pub fn stream_list_url(room_id: &str) -> (r: String)
        ensures
            r@ == stream_list_prefix() + room_id@,
    {
        let mut url = String::from_str(
            "https://api.live.bilibili.com/live_stream/v1/StreamList/get_stream_by_roomId?room_id=",
        );
        url.append(room_id);
        proof {
            reveal_strlit(
                "https://api.live.bilibili.com/live_stream/v1/StreamList/get_stream_by_roomId?room_id=",
            );
        }
        url
    }

    /// The room id carried by a "live info" response; an error when it has no payload.
    pub fn room_id(response: Response<LiveInfo>) -> (r: Result<String, String>)
        ensures
            match response.data {
                Some(info) => r == Ok::<String, String>(info.roomid),
                None => r is Err && r->Err_0@ == missing_data_message(),
            },
    {
        match response.data {
            Some(info) => Ok(info.roomid),
            None => {
                proof {
                    reveal_strlit("get_stream_by_roomId failed");
                }
                Err(String::from_str("get_stream_by_roomId failed"))
            },
        }
    }

    /// The upstream authentication carried by a "stream by room id" response: the push
    /// address as the target and the stream code as the key.
    pub fn authentication(response: Response<GetStreamByRoomId>) -> (r: Result<
        Authentication,
        String,
    >)
        ensures
            match response.data {
                Some(stream) => r is Ok && r->Ok_0.url == stream.rtmp.addr && r->Ok_0.key == Some(
                    stream.rtmp.code,
                ),
                None => r is Err && r->Err_0@ == missing_data_message(),
            },
    {
        match response.data {
            Some(stream) => Ok(Authentication { url: stream.rtmp.addr, key: Some(stream.rtmp.code) }),
            None => {
                proof {
                    reveal_strlit("get_stream_by_roomId failed");
                }
                Err(String::from_str("get_stream_by_roomId failed"))
            },
        }
    }
}

} // verus!
