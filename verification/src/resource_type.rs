//! The closed set of downloadable artifact kinds, and the fixed URL
//! template each directly-templated kind resolves through.

use vstd::prelude::*;

use crate::error::ApiError;

verus! {

/// One kind of downloadable artifact belonging to a beatmap set.
#[derive(Debug, Clone, Copy, PartialEq, Eq, Structural)]
pub enum ResourceType {
    PreviewImg,
    PreviewAudio,
    FullAudio,
    FullCoverImg,
    Video,
    FullSizeMap,
    NoVideoMap,
    MiniMap,
}

impl ResourceType {
    /// Whether this kind resolves through a fixed URL template, with no
    /// metadata lookup.
    pub open spec fn spec_is_templated(self) -> bool {
        match self {
            ResourceType::PreviewImg => true,
            ResourceType::PreviewAudio => true,
            ResourceType::FullSizeMap => true,
            ResourceType::NoVideoMap => true,
            ResourceType::MiniMap => true,
            _ => false,
        }
    }

    /// The URL template of a templated kind, with the identifier
    /// placeholder still in place.
    pub open spec fn spec_url_format(self) -> Seq<char> {
        match self {
            ResourceType::PreviewImg => "https://a.sayobot.cn/beatmaps/${sid}/covers/cover.webp"@,
            ResourceType::PreviewAudio => "https://a.sayobot.cn/preview/${sid}.mp3"@,
            ResourceType::FullSizeMap => "https://dl.sayobot.cn/beatmaps/download/full/${sid}"@,
            ResourceType::NoVideoMap => "https://dl.sayobot.cn/beatmaps/download/novideo/${sid}"@,
            ResourceType::MiniMap => "https://dl.sayobot.cn/beatmaps/download/mini/${sid}"@,
            _ => Seq::empty(),
        }
    }

    /// Hands out the fixed URL template of a templated kind; the other
    /// kinds have none.
    pub fn get_type_url_format(&self) -> (r: Result<String, ApiError>)
        ensures
            self.spec_is_templated() ==> r is Ok && (r->Ok_0)@ == self.spec_url_format(),
            !self.spec_is_templated() ==> r == Err::<String, ApiError>(ApiError::NoUrlFormat),
    {
        match self {
            ResourceType::PreviewImg => Ok(
                "https://a.sayobot.cn/beatmaps/${sid}/covers/cover.webp".to_owned(),
            ),
            ResourceType::PreviewAudio => Ok("https://a.sayobot.cn/preview/${sid}.mp3".to_owned()),
            ResourceType::FullSizeMap => Ok(
                "https://dl.sayobot.cn/beatmaps/download/full/${sid}".to_owned(),
            ),
            ResourceType::NoVideoMap => Ok(
                "https://dl.sayobot.cn/beatmaps/download/novideo/${sid}".to_owned(),
            ),
            ResourceType::MiniMap => Ok(
                "https://dl.sayobot.cn/beatmaps/download/mini/${sid}".to_owned(),
            ),
            _ => Err(ApiError::NoUrlFormat),
        }
    }
}

} // verus!
