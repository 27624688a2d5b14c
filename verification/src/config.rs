//! The settings that the engine reads.

use vstd::prelude::*;
use vstd::string::*;
use crate::image_format::DownloadFormat;

verus! {

/// Which upstream host to talk to.
#[derive(Default, Debug, Clone, Copy, PartialEq, Eq, Structural)]
pub enum ApiDomainMode {
    #[default]
    Default,
    Custom,
}

/// The settings.
#[derive(Debug, Clone, PartialEq, Eq)]
pub struct Config {
    pub token: String,
    pub download_dir: String,
    pub export_dir: String,
    pub api_domain_mode: ApiDomainMode,
    pub custom_api_domain: String,
    pub download_format: DownloadFormat,
    pub enable_file_logger: bool,
    /// How many chapters may download at once.
    pub chapter_concurrency: usize,
    /// Seconds to wait after each chapter.
    pub chapter_download_interval_sec: u64,
    /// How many images may download at once, over all chapters.
    pub img_concurrency: usize,
    /// Seconds to wait after each image.
    pub img_download_interval_sec: u64,
    pub update_downloaded_comics_interval_sec: u64,
    /// The template of a comic's directory, one directory per part between
    /// slashes.
    pub comic_dir_fmt: String,
    /// The template of a chapter's directory below the comic's.
    pub chapter_dir_fmt: String,
    pub create_pdf_concurrency: usize,
    pub enable_merge_pdf: bool,
    /// Whether chapters are kept apart by kind.
    pub separate_chapter_type: bool,
}

/// The host that is asked unless the settings name another.
pub open spec fn default_api_domain() -> Seq<char> {
    "api.2025copy.com"@
}

/// What an authorization header begins with.
pub open spec fn token_prefix() -> Seq<char> {
    "Token "@
}

impl Config {
    /// The settings of a first start, with the two directories and the number
    /// of processor cores of the machine.
    pub fn default(download_dir: String, export_dir: String, cpu_core_num: usize) -> (config: Config)
        ensures
            config.token@.len() == 0,
            config.download_dir == download_dir,
            config.export_dir == export_dir,
            config.api_domain_mode == ApiDomainMode::Default,
            config.custom_api_domain@ == default_api_domain(),
            config.download_format == DownloadFormat::Webp,
            config.enable_file_logger,
            config.chapter_concurrency == 3,
            config.chapter_download_interval_sec == 0,
            config.img_concurrency == 30,
            config.img_download_interval_sec == 0,
            config.update_downloaded_comics_interval_sec == 0,
            config.comic_dir_fmt@ == "{comic_title}"@,
            config.chapter_dir_fmt@ == "{group_title}/{order} {chapter_title}"@,
            config.create_pdf_concurrency == cpu_core_num,
            config.enable_merge_pdf,
            !config.separate_chapter_type,
    {
        Config {
            token: String::new(),
            download_dir,
            export_dir,
            api_domain_mode: ApiDomainMode::Default,
            custom_api_domain: String::from_str("api.2025copy.com"),
            download_format: DownloadFormat::Webp,
            enable_file_logger: true,
            chapter_concurrency: 3,
            chapter_download_interval_sec: 0,
            img_concurrency: 30,
            img_download_interval_sec: 0,
            update_downloaded_comics_interval_sec: 0,
            comic_dir_fmt: String::from_str("{comic_title}"),
            chapter_dir_fmt: String::from_str("{group_title}/{order} {chapter_title}"),
            create_pdf_concurrency: cpu_core_num,
            enable_merge_pdf: true,
            separate_chapter_type: false,
        }
    }

    /// The value of the authorization header: the word `Token`, a space and
    /// the token.
    pub fn get_authorization(&self) -> (header: String)
        ensures
            header@ == token_prefix() + self.token@,
    {
        let mut header = String::from_str("Token ");
        header.append(self.token.as_str());
        header
    }

    /// The host to ask: the one the settings name where they ask for it, else
    /// the usual one.
    pub fn get_api_domain(&self) -> (domain: String)
        ensures
            domain@ == if self.api_domain_mode == ApiDomainMode::Custom {
                self.custom_api_domain@
            } else {
                default_api_domain()
            },
    {
        if self.api_domain_mode == ApiDomainMode::Custom {
            self.custom_api_domain.clone()
        } else {
            String::from_str("api.2025copy.com")
        }
    }
}

} // verus!
