//! Everything a caller usually needs, in one import.

pub use crate::card_actions::cards_info::{CardsInfoField, CardsInfoRequest, CardsInfoResponse};
pub use crate::card_actions::find_cards::FindCardsRequest;
pub use crate::card_actions::set_specific_value_of_card::SetSpecificValueOfCardRequest;
pub use crate::card_actions::suspended::SuspendedRequest;
pub use crate::client::{AnkiClient, FnTransport, Transport, DEFAULT_ENDPOINT};
pub use crate::codec::{FromJson, ToJson};
pub use crate::deck_actions::get_deck_config::GetDeckConfigRequest;
pub use crate::deck_actions::get_deck_stats::{GetDeckStatsRequest, GetDeckStatsResponse};
pub use crate::error::Error;
pub use crate::graphical_actions::gui_add_cards::{
    GuiAddCardsNote,
    GuiAddCardsNoteFields,
    GuiAddCardsNotePicture,
    GuiAddCardsRequest,
};
pub use crate::graphical_actions::gui_current_card::{
    GuiCurrentCardField,
    GuiCurrentCardRequest,
    GuiCurrentCardResponse,
};
pub use crate::json::Json;
pub use crate::miscellaneous_actions::reload_collection::ReloadCollectionRequest;
pub use crate::miscellaneous_actions::request_permission::{
    Permission,
    RequestPermissionRequst,
    RequestPermissionResponse,
};
pub use crate::mock::MockAnkiClient;
pub use crate::request::{AnkiRequest, AnkiRequestable};
pub use crate::statistic_actions::get_num_cards_reviewed_by_day::{
    GetNumCardsReviewedByDayRequest,
    GetNumCardsReviewedByDayResponse,
};
pub use crate::statistic_actions::insert_reviews::{InsertReviewsData, InsertReviewsRequest};
