//! Planning the files a download writes.
//!
//! A resolved video is written to `<handle>_<id>.mp4`; the photos of a
//! resolved set are fetched sequentially, the `n`-th (1-based) written to
//! `<handle>_<id>_<n>.jpeg`, so the files on disk follow the resolved order.
//! The streaming fetches themselves live outside the library; it plans the
//! URL-to-file pairs and classifies each fetch's status.

use vstd::prelude::*;

verus! {

use vstd::string::StringExecFns;
use crate::api::http_success;
use crate::parser::VideoInfo;
use crate::strutil::dec_str;
use crate::strutil::u64_to_string;
use crate::types::DownloadError;
use crate::types::ResolvedMedia;

/// The file a resolved video is written to: `<handle>_<id>.mp4`.
pub open spec fn spec_video_filename(username: Seq<char>, video_id: Seq<char>) -> Seq<char> {
    username + "_"@ + video_id + ".mp4"@
}

/// The file the `n`-th photo of a set is written to (1-based):
/// `<handle>_<id>_<n>.jpeg`.
pub open spec fn spec_photo_filename(username: Seq<char>, video_id: Seq<char>, n: nat) -> Seq<
    char,
> {
    username + "_"@ + video_id + "_"@ + dec_str(n) + ".jpeg"@
}

/// Builds the video filename of a descriptor.
pub fn video_filename(info: &VideoInfo) -> (r: String)
    ensures
        r@ == spec_video_filename(info.username@, info.video_id@),
{
    let mut s = info.username.clone();
    s.append("_");
    s.append(info.video_id.as_str());
    s.append(".mp4");
    proof {
        assert(s@ =~= spec_video_filename(info.username@, info.video_id@));
    }
    s
}

/// Builds the filename of the `n`-th photo (1-based) of a descriptor's set.
pub fn photo_filename(info: &VideoInfo, n: u64) -> (r: String)
    ensures
        r@ == spec_photo_filename(info.username@, info.video_id@, n as nat),
{
    let mut s = info.username.clone();
    s.append("_");
    s.append(info.video_id.as_str());
    s.append("_");
    let num = u64_to_string(n);
    s.append(num.as_str());
    s.append(".jpeg");
    proof {
        assert(s@ =~= spec_photo_filename(info.username@, info.video_id@, n as nat));
    }
    s
}

/// A media fetch succeeds exactly on a 2xx status; any other status aborts
/// the batch with that status.
pub fn check_download_status(status: u16) -> (r: Result<(), DownloadError>)
    ensures
        http_success(status) ==> r is Ok,
        !http_success(status) ==> r == Err::<(), DownloadError>(DownloadError::Http(status)),
{
    if 200 <= status && status < 300 {
        Ok(())
    } else {
        Err(DownloadError::Http(status))
    }
}

/// The fetch-URL / filename pairs `r` are the plan of `media` for the
/// descriptor with `username` and `video_id`: one pair for a video; for a
/// photo set one pair per URL, in the resolved order, the `i`-th (1-based)
/// named with index `i`.
pub open spec fn plan_ok(
    media: ResolvedMedia,
    username: Seq<char>,
    video_id: Seq<char>,
    r: Seq<(String, String)>,
) -> bool {
    match media {
        ResolvedMedia::Video(u) => r.len() == 1 && r[0].0@ == u@ && r[0].1@ == spec_video_filename(
            username,
            video_id,
        ),
        ResolvedMedia::Photos(urls) => r.len() == urls@.len() && (forall|i: int|
            0 <= i < r.len() ==> r[i].0@ == urls@[i]@ && r[i].1@ == spec_photo_filename(
                username,
                video_id,
                (i + 1) as nat,
            )),
    }
}

/// Plans the files a download writes, as fetch-URL / filename pairs in the
/// order they are fetched.
pub fn download_plan(media: &ResolvedMedia, info: &VideoInfo) -> (r: Vec<(String, String)>)
    ensures
        plan_ok(*media, info.username@, info.video_id@, r@),
{
    match media {
        ResolvedMedia::Video(u) => {
            let mut v: Vec<(String, String)> = Vec::new();
            v.push((u.clone(), video_filename(info)));
            proof {
                assert(plan_ok(*media, info.username@, info.video_id@, v@));
            }
            v
        },
        ResolvedMedia::Photos(urls) => {
            let mut v: Vec<(String, String)> = Vec::new();
            let mut i: usize = 0;
            while i < urls.len()
                invariant
                    i <= urls.len(),
                    v@.len() == i,
                    forall|j: int|
                        0 <= j < i ==> v@[j].0@ == urls@[j]@ && v@[j].1@ == spec_photo_filename(
                            info.username@,
                            info.video_id@,
                            (j + 1) as nat,
                        ),
                decreases urls.len() - i,
            {
                let url = urls[i].clone();
                let name = photo_filename(info, (i + 1) as u64);
                v.push((url, name));
                i = i + 1;
            }
            proof {
                assert(plan_ok(*media, info.username@, info.video_id@, v@));
            }
            v
        },
    }
}

} // verus!
