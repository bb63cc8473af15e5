use mira_sharer::gui::component::sharing::{InviteTab, Message, SharingAction, SharingPage, ViewersTab};
use mira_sharer::gui::page::sharing::Props;
use mira_sharer::gui::resource::get;
use mira_sharer::gui::theme::button::{IconButton, Style, FAB, FilledButton};
use mira_sharer::gui::theme::container;
use mira_sharer::gui::theme::icon::Icon;
use mira_sharer::gui::theme::svg::{Color, Svg};
use mira_sharer::gui::theme::text;
use mira_sharer::gui::theme::{Palette, Theme};

#[test]
fn resources_live_in_the_resources_directory() {
    assert_eq!(get("play.svg".to_string()), "resources/play.svg");
    assert_eq!(get(String::new()), "resources/");
}

#[test]
fn icons_are_material_glyphs() {
    assert_eq!(Icon::ContentCopy.glyph(), '\u{e14d}');
    assert_eq!(Icon::PersonRemove.glyph(), '\u{ef66}');
    assert_eq!(Icon::Done.to_string(), "\u{e876}");
    assert_eq!(Icon::StopCircle.to_string().chars().count(), 1);
}

#[test]
fn themes_pick_their_palettes() {
    assert_eq!(Theme::default(), Theme::Light);
    assert_eq!(Theme::Light.palette().primary, 0x6750A4);
    assert_eq!(Theme::Dark.palette().primary, 0xD0BCFF);
    assert_eq!(Palette::dark().surface, 0x141218);
    assert_eq!(Palette::light().on_error_container, 0x410E0B);
}

#[test]
fn button_styles_pick_palette_colours() {
    let p = Palette::light();
    assert_eq!(p.filled_colors(Style::Primary), (0x6750A4, 0xFFFFFF));
    assert_eq!(p.filled_colors(Style::Danger), (0xB3261E, 0xFFFFFF));
    assert_eq!(p.accent_color(Style::Secondary), 0x625B71);
    assert_eq!(Style::default(), Style::Primary);
}

#[test]
fn buttons_keep_what_they_are_given() {
    let fab = FAB::new("Start Sharing", Icon::PlayCircle).style(Style::Secondary);
    assert_eq!(fab.text, "Start Sharing");
    assert_eq!(fab.icon, Icon::PlayCircle);
    assert_eq!(fab.style, Style::Secondary);
    let b = FilledButton::new("End").icon(Icon::StopCircle).style(Style::Danger);
    assert_eq!(b.text, "End");
    assert_eq!(b.icon, Some(Icon::StopCircle));
    assert_eq!(b.style, Style::Danger);
    let i = IconButton::new(Icon::Close).filled(true).style(Style::Danger);
    assert_eq!(i.icon, Icon::Close);
    assert!(i.filled);
    assert_eq!(i.style, Style::Danger);
}

#[test]
fn containers_and_text_take_theme_colours() {
    let p = Palette::dark();
    assert_eq!(p.container_look(container::Style::Default), None);
    let card = p.container_look(container::Style::OutlinedCard).unwrap();
    assert_eq!((card.background, card.border_color, card.border_radius, card.border_width), (0x141218, 0x938F99, 12, 1));
    assert_eq!(p.text_color(text::Style::Text), None);
    assert_eq!(p.text_color(text::Style::Label), Some(0xCAC4D0));
    assert_eq!(p.svg_color(Color::OnError), 0x601410);
}

#[test]
fn svg_images_are_recoloured() {
    let s = Svg::new("stop.svg".to_string());
    assert_eq!(s.color, Color::OnSurface);
    let s = s.color(Color::OnPrimary);
    assert_eq!(s.svg, "stop.svg");
    assert_eq!(s.color, Color::OnPrimary);
}

#[test]
fn tabs_have_titles() {
    assert_eq!(InviteTab {}.title(), "Invite");
    assert_eq!(ViewersTab {}.title(), "Viewers");
}

#[test]
fn sharing_page_actions() {
    let mut page = SharingPage::new();
    assert_eq!(page.current_tab(), 0);
    let link = Some("https://v/?room=r".to_string());
    match page.update::<u32>(Message::CopyInviteLink, link.clone(), None, None) {
        SharingAction::WriteClipboard(s) => assert_eq!(s, "https://v/?room=r"),
        _ => panic!("expected a clipboard write"),
    }
    assert!(matches!(page.update::<u32>(Message::CopyRoomID, link.clone(), None, None), SharingAction::Nothing));
    match page.update::<u32>(Message::CopyPasscode, None, None, Some("K3P9Z".to_string())) {
        SharingAction::WriteClipboard(s) => assert_eq!(s, "K3P9Z"),
        _ => panic!("expected a clipboard write"),
    }
    assert!(matches!(page.update::<u32>(Message::Stop, None, None, None), SharingAction::Shutdown));
    assert!(matches!(page.update(Message::KickViewer(9u32), None, None, None), SharingAction::KickViewer(9)));
    assert!(matches!(page.update(Message::AcceptJoin(4u32), None, None, None), SharingAction::PermitViewer(4)));
    assert!(matches!(page.update(Message::DeclineJoin(5u32), None, None, None), SharingAction::DeclineViewer(5)));
    assert!(matches!(page.update::<u32>(Message::ChangeTab(1), None, None, None), SharingAction::Nothing));
    assert_eq!(page.current_tab(), 1);
}

#[test]
fn sharing_props_hold_room_and_link() {
    let p = Props { room_id: "r".to_string(), invite_link: "l".to_string() };
    assert_eq!((p.room_id.as_str(), p.invite_link.as_str()), ("r", "l"));
}
