//! Client-side logic for a movie listing site: search filters, the URL of a
//! search, and the extraction of movies and torrents from the pages that the
//! site returns.
//!
//! Nothing here touches the network. A caller builds the URL of a search with
//! [`Yts::create_url`], fetches it by whatever means it has, and hands the
//! body to [`Response::create`]; the page of a movie goes to
//! [`Torrent::create`] in the same way.

pub mod client;
pub mod error;
pub mod filter;
pub mod genre;
pub mod html;
pub mod movie;
pub mod page;
pub mod response;
pub mod text;
pub mod torrent;

pub use client::Yts;
pub use error::Error;
pub use filter::{Filter, Filters, OrderBy, Quality, Rating, Year};
pub use genre::Genre;
pub use movie::Movie;
pub use page::Page;
pub use response::Response;
pub use torrent::Torrent;
