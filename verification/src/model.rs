//! Structs modelling the data types used by the API.

pub mod builders;
pub mod channel;
pub mod filter;
pub mod id;
pub mod kinds;
pub mod page;
pub mod serializers;
pub mod video;

pub use kinds::ChannelSortingCriteria;
pub use kinds::ChannelType;
pub use kinds::ChannelVideoType;
pub use kinds::ExtraVideoInfo;
pub use kinds::Order;
pub use kinds::SearchOrder;
pub use kinds::VideoSortingCriteria;
pub use kinds::VideoStatus;
pub use kinds::VideoType;
pub use page::PaginatedResult;
pub use page::PaginatedTotal;
pub use serializers::Language;
pub use serializers::Organisation;
pub use channel::Channel;
pub use channel::ChannelMin;
pub use channel::ChannelStats;
pub use filter::ChannelFilter;
pub use filter::ChannelVideoFilter;
pub use filter::CommentSearch;
pub use filter::VideoFilter;
pub use filter::VideoSearch;
pub use filter::VideoSearchCondition;
pub use video::Comment;
pub use video::Song;
pub use video::Video;
pub use video::VideoChannel;
pub use video::VideoFull;
pub use video::VideoLiveInfo;
