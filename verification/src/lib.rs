//! A builder for Windows toast notifications.
//!
//! The library assembles the XML document that describes a toast: title and
//! body text, images, sound, progress bar, buttons and scenario.  Callers
//! chain configuration methods on [`Toast`], then hand the finished document
//! to the platform's notification manager for display.  Everything that the
//! builder emits is specified: each configuration method states exactly which
//! fragment it stores, and the template assembly states the exact document it
//! produces.

mod escape;
mod platform;
mod progress;
mod sound;
mod strutil;
mod toast;
mod wellformed;

pub use escape::escaped;
pub use escape::escaped_char;
pub use escape::is_escaped_specially;
pub use escape::lemma_escaped_free_of_markup;
pub use escape::lemma_escaped_injective;
pub use platform::activated_action;
pub use platform::dismissal_reason_from_code;
pub use platform::update_result_from_code;
pub use platform::NotificationUpdateResult;
pub use platform::ToastDismissalReason;
pub use progress::Progress;
pub use progress::ProgressView;
pub use progress::INITIAL_SEQUENCE_NUMBER;
pub use progress::UPDATE_SEQUENCE_NUMBER;
pub use sound::lemma_loopable_sound_round_trip;
pub use sound::lemma_sound_name_round_trip;
pub use sound::lemma_sound_round_trip;
pub use sound::loopable_sound_name;
pub use sound::parse_loopable_sound;
pub use sound::parse_sound;
pub use sound::sound_name;
pub use sound::LoopableSound;
pub use sound::Sound;
pub use sound::SoundParsingError;
pub use toast::actions_fragment;
pub use toast::audio_fragment;
pub use toast::binding_template;
pub use toast::button_fragment;
pub use toast::buttons_body;
pub use toast::duration_fragment;
pub use toast::hero_piece;
pub use toast::icon_crop_attr;
pub use toast::icon_piece;
pub use toast::image_piece;
pub use toast::lemma_actions_two_buttons;
pub use toast::lemma_legacy_hero_is_image;
pub use toast::lemma_legacy_icon_is_image;
pub use toast::lemma_legacy_image_last_wins;
pub use toast::lemma_modern_images_accumulate;
pub use toast::line1_fragment;
pub use toast::line2_fragment;
pub use toast::new_toast_view;
pub use toast::progress_fragment;
pub use toast::scenario_fragment;
pub use toast::title_fragment;
pub use toast::toast_xml;
pub use wellformed::attr_text_safe;
pub use wellformed::buttons_attr_safe;
pub use wellformed::lemma_add_button_preserves_scans_clean;
pub use wellformed::lemma_attr_methods_preserve_scans_clean;
pub use wellformed::lemma_escaped_markup_free;
pub use wellformed::lemma_image_methods_preserve_scans_clean;
pub use wellformed::lemma_new_toast_view_scans_clean;
pub use wellformed::lemma_scan_actions_fragment;
pub use wellformed::lemma_scan_append;
pub use wellformed::lemma_scan_audio_fragment;
pub use wellformed::lemma_scan_button_fragment;
pub use wellformed::lemma_scan_duration_fragment;
pub use wellformed::lemma_scan_hero_piece;
pub use wellformed::lemma_scan_icon_piece;
pub use wellformed::lemma_scan_image_piece;
pub use wellformed::lemma_scan_markup_free_attr;
pub use wellformed::lemma_scan_markup_free_text;
pub use wellformed::lemma_scan_progress_fragment;
pub use wellformed::lemma_scan_safe_single_quoted;
pub use wellformed::lemma_scan_scenario_fragment;
pub use wellformed::lemma_scan_text_fragments;
pub use wellformed::lemma_sound_method_preserves_scans_clean;
pub use wellformed::lemma_state_methods_preserve_scans_clean;
pub use wellformed::lemma_text_methods_preserve_scans_clean;
pub use wellformed::lemma_toast_xml_scans_clean;
pub use wellformed::markup_free;
pub use wellformed::scan;
pub use wellformed::scan_char;
pub use wellformed::scan_from;
pub use wellformed::scans_clean;
pub use wellformed::view_scans_clean;
pub use wellformed::ScanState;
pub use toast::with_hero;
pub use toast::with_icon;
pub use toast::with_image;
pub use toast::Button;
pub use toast::ButtonView;
pub use toast::Duration;
pub use toast::IconCrop;
pub use toast::Scenario;
pub use toast::Toast;
pub use toast::ToastView;
