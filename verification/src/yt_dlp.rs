//! Searching videos with the `yt-dlp` program: the search text and arguments
//! it is given, and the plain parts of what it reports.
use vstd::prelude::*;
use crate::text::{decimal, push_decimal};

verus! {

/// The sites yt-dlp can search.
#[derive(PartialEq, Eq, Structural, Debug, Clone, Copy)]
pub enum Search {
    /// bilibili
    Bilibili,
    /// YouTube
    Youtube,
    /// TikTok
    TikTok,
}

/// The yt-dlp search prefix of a site.
pub open spec fn search_prefix(s: Search) -> Seq<char> {
    match s {
        Search::Bilibili => "bilisearch"@,
        Search::Youtube => "ytsearch"@,
        Search::TikTok => "tiktok"@,
    }
}

impl Search {
    /// The yt-dlp search prefix of the site.
    pub fn into_str(self) -> (s: &'static str)
        ensures
            s@ == search_prefix(self),
    {
        match self {
            Search::Bilibili => "bilisearch",
            Search::Youtube => "ytsearch",
            Search::TikTok => "tiktok",
        }
    }
}

/// A yt-dlp searcher for one site.
pub struct YtDlp {
    search: Search,
}

/// The search text handed to yt-dlp: `<prefix>:<len>:<keyword>`.
pub open spec fn search_text(site: Search, len: u8, keyword: Seq<char>) -> Seq<char> {
    search_prefix(site) + ":"@ + decimal(len as nat) + ":"@ + keyword
}

impl YtDlp {
    /// A searcher for `search`.
    pub fn new(search: Search) -> (y: YtDlp)
        ensures
            y.site() == search,
    {
        YtDlp { search }
    }

    /// The site searched.
    pub closed spec fn site(&self) -> Search {
        self.search
    }

    /// The command line arguments of a search for `len` results about
    /// `keyword`: JSON output of the best audio-only format, no playlists.
    /// A length of zero is refused with `搜索长度不能为0`.
    pub fn search_args(&self, keyword: &str, len: u8) -> (r: Result<Vec<String>, String>)
        ensures
            len == 0 <==> r is Err,
            r matches Err(e) ==> e@ == "搜索长度不能为0"@,
            r matches Ok(args) ==> args@.map_values(|a: String| a@) == seq![
                "-j"@,
                search_text(self.site(), len, keyword@),
                "-f"@,
                "ba[abr>0][vcodec=none]/best"@,
                "--no-playlist"@,
            ],
    {
        if len == 0 {
            return Err(String::from_str("搜索长度不能为0"));
        }
        let mut text = String::from_str(self.search.into_str());
        text.append(":");
        push_decimal(&mut text, len as u64);
        text.append(":");
        text.append(keyword);
        let mut args: Vec<String> = Vec::new();
        args.push(String::from_str("-j"));
        args.push(text);
        args.push(String::from_str("-f"));
        args.push(String::from_str("ba[abr>0][vcodec=none]/best"));
        args.push(String::from_str("--no-playlist"));
        assert(args@.map_values(|a: String| a@) =~= seq![
            "-j"@,
            search_text(self.site(), len, keyword@),
            "-f"@,
            "ba[abr>0][vcodec=none]/best"@,
            "--no-playlist"@,
        ]);
        Ok(args)
    }
}

/// The HTTP headers yt-dlp reports for a media link.
pub struct HttpHeaders {
    /// `User-Agent`
    pub user_agent: String,
    /// `Accept`
    pub accept: String,
    /// `Accept-Language`
    pub accept_language: String,
    /// `Sec-Fetch-Mode`
    pub sec_fetch_mode: String,
    /// `Referer`, when there is one.
    pub referer: Option<String>,
}

/// A thumbnail of a video.
pub struct Thumbnail {
    /// Its link.
    pub url: String,
    /// Its id.
    pub id: String,
}

/// The yt-dlp version that answered.
pub struct Version {
    /// The version.
    pub version: String,
    /// The git head it was built from, when known.
    pub current_git_head: Option<String>,
    /// The git head of the release.
    pub release_git_head: String,
    /// The repository.
    pub repository: String,
}

} // verus!
