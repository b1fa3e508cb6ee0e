use taco_chat::account::{update_profile, ProfileChange};
use taco_chat::chat::WebImageMessage;
use taco_chat::chat_list::{ChatListCommand, ChatListMessage};
use taco_chat::header::{Header, HeaderCommand, HeaderMessage};
use taco_chat::letter_list::LetterListMessage;
use taco_chat::login_screen::{Entry, LoginScreen, LoginScreenCommand, LoginScreenMessage};
use taco_chat::main_screen::{MainScreen, MainScreenCommand, MainScreenMessage};
use taco_chat::requests::{ChatWithMembers, LoginInfo, Session, UpdateProfile};
use taco_chat::settings::{Settings, SettingsCommand, SettingsMessage};
use taco_chat::taco::{
    from_chat_list, from_letter_list, from_settings, AppCommand, AppMessage, AppState, Taco,
};
use taco_chat::ws_client::{SocketStep, State};
use taco_chat::upload::{
    check_upload, new_picture, picture_path, picture_url, UploadError, FILE_SIZE_LIMIT,
};

fn session(user: &str) -> Session {
    Session { session_id: format!("s-{user}"), user_id: user.to_string() }
}

fn chat(id: &str, a: &str, b: &str, at: i64) -> ChatWithMembers {
    ChatWithMembers {
        id: id.to_string(),
        members: vec![a.to_string(), b.to_string()],
        last_updated: at,
    }
}

fn logged_in(user: &str) -> Taco {
    let mut app = Taco::new();
    app.update_at(AppMessage::LoginScreen(LoginScreenMessage::LoggedIn(session(user))), 0);
    app
}

fn main_screen(app: &Taco) -> &MainScreen {
    match app.state() {
        AppState::LoggedIn(screen) => screen,
        AppState::Guest(_) => panic!("nobody is logged in"),
    }
}

fn login_screen(app: &Taco) -> &LoginScreen {
    match app.state() {
        AppState::Guest(screen) => screen,
        AppState::LoggedIn(_) => panic!("somebody is logged in"),
    }
}

#[test]
fn header_asks_for_the_users_picture() {
    let (header, command) = Header::new(session("alice"));
    assert_eq!(command, HeaderCommand::LoadProfilePicture { user_id: "alice".to_string() });
    assert_eq!(header.session, session("alice"));
    assert_eq!(header.profile_picture.image, None);
}

#[test]
fn header_loads_and_shows_the_picture() {
    let (mut header, _) = Header::new(session("alice"));
    assert_eq!(
        header.update(HeaderMessage::ProfilePictureLoaded(Some("http://p".to_string()))),
        HeaderCommand::LoadImage { url: "http://p".to_string() }
    );
    assert_eq!(header.update(HeaderMessage::ProfilePictureLoaded(None)), HeaderCommand::Nothing);
    assert_eq!(
        header.update(HeaderMessage::ProfilePicture(WebImageMessage::ImageLoaded(Some(vec![7, 8])))),
        HeaderCommand::Nothing
    );
    assert_eq!(header.profile_picture.image, Some(vec![7, 8]));
    assert_eq!(header.update(HeaderMessage::LogOut), HeaderCommand::Nothing);
    assert_eq!(header.update(HeaderMessage::SettingsOpen), HeaderCommand::Nothing);
    assert_eq!(header.profile_picture.image, Some(vec![7, 8]));
}

#[test]
fn settings_start_empty_and_ask_for_the_address_on_record() {
    let (settings, command) = Settings::new(session("alice"));
    assert_eq!(command, SettingsCommand::LoadProfilePicture { user_id: "alice".to_string() });
    assert_eq!(settings.profile_picture, "");
}

#[test]
fn settings_save_the_address_or_none() {
    let (mut settings, _) = Settings::new(session("alice"));
    assert_eq!(
        settings.update(SettingsMessage::ApplyChanges),
        SettingsCommand::UpdateProfile {
            change: UpdateProfile { id: None, display_name: None, profile_picture: None },
            session_id: "s-alice".to_string(),
        }
    );
    assert_eq!(
        settings.update(SettingsMessage::ProfilePictureChanged("http://a".to_string())),
        SettingsCommand::Nothing
    );
    settings.update(SettingsMessage::ProfilePictureLoaded(None));
    assert_eq!(settings.profile_picture, "http://a");
    settings.update(SettingsMessage::ProfilePictureLoaded(Some("http://b".to_string())));
    assert_eq!(settings.profile_picture, "http://b");
    assert_eq!(
        settings.update(SettingsMessage::ApplyChanges),
        SettingsCommand::UpdateProfile {
            change: UpdateProfile {
                id: None,
                display_name: None,
                profile_picture: Some("http://b".to_string()),
            },
            session_id: "s-alice".to_string(),
        }
    );
    assert_eq!(settings.update(SettingsMessage::ProfilePictureSelecting), SettingsCommand::UploadPicture);
    assert_eq!(settings.update(SettingsMessage::ChangesApplied), SettingsCommand::Nothing);
    assert_eq!(settings.update(SettingsMessage::Error("x".to_string())), SettingsCommand::Nothing);
    assert_eq!(settings.profile_picture, "http://b");
}

#[test]
fn login_screen_sends_what_was_typed() {
    let mut screen = LoginScreen::new();
    assert!(!screen.is_logging_in());
    screen.update(LoginScreenMessage::UsernameInputChanged("alice".to_string()));
    screen.update(LoginScreenMessage::PasswordInputChanged("secret".to_string()));
    assert_eq!(screen.username_input(), "alice");
    assert_eq!(screen.password_input(), "secret");
    assert_eq!(screen.update(LoginScreenMessage::FocusChange), LoginScreenCommand::FocusNext);
    assert_eq!(
        screen.update(LoginScreenMessage::Login),
        LoginScreenCommand::Enter {
            entry: Entry::Login,
            info: LoginInfo { username: "alice".to_string(), password: "secret".to_string() },
        }
    );
    assert!(screen.is_logging_in());
    screen.stop_logging_in();
    assert!(!screen.is_logging_in());
    assert_eq!(
        screen.update(LoginScreenMessage::Register),
        LoginScreenCommand::Enter {
            entry: Entry::Register,
            info: LoginInfo { username: "alice".to_string(), password: "secret".to_string() },
        }
    );
    assert!(screen.is_logging_in());
    assert_eq!(screen.update(LoginScreenMessage::Error("x".to_string())), LoginScreenCommand::Nothing);
    assert_eq!(
        screen.update(LoginScreenMessage::LoggedIn(session("alice"))),
        LoginScreenCommand::Nothing
    );
}

#[test]
fn main_screen_starts_by_loading_chats_and_picture() {
    let (screen, commands) = MainScreen::new(session("alice"));
    assert_eq!(
        commands,
        vec![
            MainScreenCommand::LoadChats { session_id: "s-alice".to_string() },
            MainScreenCommand::Header(HeaderCommand::LoadProfilePicture {
                user_id: "alice".to_string()
            }),
        ]
    );
    assert_eq!(screen.session(), &session("alice"));
    assert_eq!(screen.chat_list().len(), 0);
    assert_eq!(screen.settings(), &None);
    assert_eq!(screen.header().session, session("alice"));
}

#[test]
fn main_screen_enters_the_loaded_chats() {
    let (mut screen, _) = MainScreen::new(session("alice"));
    let loaded = vec![chat("c1", "alice", "bob", 10), chat("c2", "carol", "alice", 20)];
    let commands = screen.update_at(MainScreenMessage::ChatsLoaded(loaded), 0);
    assert_eq!(
        commands,
        vec![
            MainScreenCommand::ChatList(ChatListCommand::LoadProfilePicture {
                chat_id: "c1".to_string(),
                user_id: "bob".to_string(),
            }),
            MainScreenCommand::ChatList(ChatListCommand::LoadProfilePicture {
                chat_id: "c2".to_string(),
                user_id: "carol".to_string(),
            }),
        ]
    );
    assert_eq!(screen.chat_list().ordered_chats(), vec!["c2", "c1"]);
    assert_eq!(screen.update_at(MainScreenMessage::ChatsLoaded(vec![]), 0), vec![]);
}

#[test]
fn main_screen_opens_and_closes_the_settings() {
    let (mut screen, _) = MainScreen::new(session("alice"));
    assert_eq!(
        screen.update_at(MainScreenMessage::Settings(SettingsMessage::ApplyChanges), 0),
        vec![]
    );
    assert_eq!(
        screen.update_at(MainScreenMessage::Header(HeaderMessage::SettingsOpen), 0),
        vec![MainScreenCommand::Settings(SettingsCommand::LoadProfilePicture {
            user_id: "alice".to_string()
        })]
    );
    assert!(screen.settings().is_some());
    let typed = SettingsMessage::ProfilePictureChanged("http://a".to_string());
    assert_eq!(
        screen.update_at(MainScreenMessage::Settings(typed), 0),
        vec![MainScreenCommand::Settings(SettingsCommand::Nothing)]
    );
    assert_eq!(screen.settings().as_ref().unwrap().profile_picture, "http://a");
    assert_eq!(screen.update_at(MainScreenMessage::Settings(SettingsMessage::ChangesApplied), 0), vec![]);
    assert_eq!(screen.settings(), &None);
    screen.update_at(MainScreenMessage::Header(HeaderMessage::SettingsOpen), 0);
    assert_eq!(screen.settings().as_ref().unwrap().profile_picture, "");
    assert_eq!(screen.update_at(MainScreenMessage::SettingsClosed, 0), vec![]);
    assert_eq!(screen.settings(), &None);
    assert_eq!(screen.update_at(MainScreenMessage::Error("x".to_string()), 0), vec![]);
}

#[test]
fn main_screen_passes_messages_on() {
    let (mut screen, _) = MainScreen::new(session("alice"));
    let typed = ChatListMessage::UsernameInputChanged("bob".to_string());
    assert_eq!(
        screen.update_at(MainScreenMessage::ChatList(typed), 0),
        vec![MainScreenCommand::ChatList(ChatListCommand::Nothing)]
    );
    assert_eq!(screen.chat_list().username_input(), "bob");
    let known = HeaderMessage::ProfilePictureLoaded(Some("http://p".to_string()));
    assert_eq!(
        screen.update_at(MainScreenMessage::Header(known), 0),
        vec![MainScreenCommand::Header(HeaderCommand::LoadImage { url: "http://p".to_string() })]
    );
}

#[test]
fn app_starts_with_a_guest() {
    let app = Taco::new();
    assert_eq!(app.error(), &None);
    assert_eq!(login_screen(&app), &LoginScreen::new());
}

#[test]
fn app_enters_the_main_screen_on_login() {
    let mut app = Taco::new();
    let command = app.update_at(AppMessage::LoginScreen(LoginScreenMessage::LoggedIn(session("alice"))), 0);
    assert_eq!(
        command,
        AppCommand::MainScreen(vec![
            MainScreenCommand::LoadChats { session_id: "s-alice".to_string() },
            MainScreenCommand::Header(HeaderCommand::LoadProfilePicture {
                user_id: "alice".to_string()
            }),
        ])
    );
    assert_eq!(main_screen(&app).session(), &session("alice"));
}

#[test]
fn app_logs_out_through_the_server() {
    let mut app = logged_in("alice");
    assert_eq!(
        app.update_at(AppMessage::MainScreen(MainScreenMessage::Header(HeaderMessage::LogOut)), 0),
        AppCommand::LogOut { session_id: "s-alice".to_string() }
    );
    assert_eq!(main_screen(&app).session(), &session("alice"));
    assert_eq!(app.update_at(AppMessage::LoggedOut, 0), AppCommand::Nothing);
    assert_eq!(login_screen(&app), &LoginScreen::new());
}

#[test]
fn app_shows_errors_and_frees_the_login_buttons() {
    let mut app = Taco::new();
    app.update_at(AppMessage::LoginScreen(LoginScreenMessage::Login), 0);
    assert!(login_screen(&app).is_logging_in());
    assert_eq!(app.update_at(AppMessage::Error("wrong password".to_string()), 0), AppCommand::Nothing);
    assert_eq!(app.error(), &Some("wrong password".to_string()));
    assert!(!login_screen(&app).is_logging_in());
    assert_eq!(app.update_at(AppMessage::CloseError, 0), AppCommand::Nothing);
    assert_eq!(app.error(), &None);
}

#[test]
fn app_keeps_its_state_when_a_request_fails() {
    let mut app = logged_in("alice");
    app.update_at(
        AppMessage::MainScreen(MainScreenMessage::ChatsLoaded(vec![chat("c1", "alice", "bob", 1)])),
        0,
    );
    app.update_at(AppMessage::Error("send failed".to_string()), 5);
    assert_eq!(app.error(), &Some("send failed".to_string()));
    assert_eq!(main_screen(&app).chat_list().len(), 1);
    assert_eq!(main_screen(&app).chat_list().opened_chat_messages().len(), 0);
}

#[test]
fn app_ignores_messages_for_the_screen_that_is_not_showing() {
    let mut app = Taco::new();
    assert_eq!(
        app.update_at(AppMessage::MainScreen(MainScreenMessage::SettingsClosed), 0),
        AppCommand::Nothing
    );
    let mut app = logged_in("alice");
    assert_eq!(
        app.update_at(AppMessage::LoginScreen(LoginScreenMessage::Login), 0),
        AppCommand::Nothing
    );
    assert_eq!(
        app.update_at(AppMessage::MainScreen(MainScreenMessage::SettingsClosed), 0),
        AppCommand::MainScreen(vec![])
    );
}

#[test]
fn app_passes_login_messages_on() {
    let mut app = Taco::new();
    assert_eq!(
        app.update_at(AppMessage::LoginScreen(LoginScreenMessage::FocusChange), 0),
        AppCommand::LoginScreen(LoginScreenCommand::FocusNext)
    );
}

#[test]
fn errors_rise_to_the_application() {
    assert_eq!(
        from_letter_list(LetterListMessage::Error("e".to_string())),
        ChatListMessage::Error("e".to_string())
    );
    assert_eq!(
        from_letter_list(LetterListMessage::CancelReply),
        ChatListMessage::LetterListMessage(LetterListMessage::CancelReply)
    );
    assert_eq!(
        from_chat_list(ChatListMessage::Error("e".to_string())),
        MainScreenMessage::Error("e".to_string())
    );
    assert_eq!(
        from_chat_list(ChatListMessage::AddChat),
        MainScreenMessage::ChatList(ChatListMessage::AddChat)
    );
    assert_eq!(
        from_settings(SettingsMessage::Error("e".to_string())),
        MainScreenMessage::Error("e".to_string())
    );
    assert_eq!(
        from_settings(SettingsMessage::ChangesApplied),
        MainScreenMessage::Settings(SettingsMessage::ChangesApplied)
    );
    assert_eq!(
        AppMessage::from_main_screen(MainScreenMessage::Error("e".to_string())),
        AppMessage::Error("e".to_string())
    );
    assert_eq!(
        AppMessage::from_main_screen(MainScreenMessage::SettingsClosed),
        AppMessage::MainScreen(MainScreenMessage::SettingsClosed)
    );
    assert_eq!(
        AppMessage::from_login_screen(LoginScreenMessage::Error("e".to_string())),
        AppMessage::Error("e".to_string())
    );
    assert_eq!(
        AppMessage::from_login_screen(LoginScreenMessage::Login),
        AppMessage::LoginScreen(LoginScreenMessage::Login)
    );
}

#[test]
fn upload_wants_a_field_named_file_within_the_limit() {
    assert_eq!(FILE_SIZE_LIMIT, 26_214_400);
    assert_eq!(check_upload(Some(&"file".to_string()), true), Ok(()));
    assert_eq!(check_upload(Some(&"file".to_string()), false), Err(UploadError::TooBig));
    assert_eq!(check_upload(Some(&"picture".to_string()), true), Err(UploadError::NoFileField));
    assert_eq!(check_upload(Some(&"File".to_string()), false), Err(UploadError::NoFileField));
    assert_eq!(check_upload(None, true), Err(UploadError::NoFileField));
    assert_eq!(UploadError::NoFileField.status(), 400);
    assert_eq!(UploadError::TooBig.status(), 400);
}

#[test]
fn pictures_are_kept_under_content() {
    assert_eq!(picture_path(&"abc".to_string()), "content/img-abc");
    assert_eq!(
        picture_url(&"http://localhost:3000".to_string(), &"abc".to_string()),
        "http://localhost:3000/content/img-abc"
    );
    let (first_id, first_path) = new_picture();
    let (second_id, _) = new_picture();
    assert_eq!(first_path, format!("content/img-{first_id}"));
    assert!(!first_id.is_empty());
    assert_ne!(first_id, second_id);
}

#[test]
fn profile_update_sets_what_it_names_and_always_the_picture() {
    let nothing = UpdateProfile { id: None, display_name: None, profile_picture: None };
    assert_eq!(update_profile(nothing), vec![ProfileChange::SetProfilePicture(None)]);
    let all = UpdateProfile {
        id: Some("al".to_string()),
        display_name: Some("Al".to_string()),
        profile_picture: Some("http://p".to_string()),
    };
    assert_eq!(
        update_profile(all),
        vec![
            ProfileChange::SetId("al".to_string()),
            ProfileChange::SetDisplayName("Al".to_string()),
            ProfileChange::SetProfilePicture(Some("http://p".to_string())),
        ]
    );
    let name_only = UpdateProfile {
        id: None,
        display_name: Some("Al".to_string()),
        profile_picture: None,
    };
    assert_eq!(
        update_profile(name_only),
        vec![ProfileChange::SetDisplayName("Al".to_string()), ProfileChange::SetProfilePicture(None)]
    );
}

#[test]
fn guests_have_no_event_socket_and_users_have_one_under_their_session() {
    let app = Taco::new();
    assert_eq!(app.subscription(), None);
    assert_eq!(LoginScreen::new().subscription(), None);
    let app = logged_in("alice");
    let expected =
        (State::Starting, SocketStep::Connect { authorization: "Bearer s-alice".to_string() });
    assert_eq!(app.subscription(), Some(expected));
    let screen = main_screen(&app);
    let expected =
        (State::Starting, SocketStep::Connect { authorization: "Bearer s-alice".to_string() });
    assert_eq!(screen.subscription(), expected);
    assert_eq!(screen.chat_list().subscription(), expected);
    assert_eq!(screen.chat_list().opened_chat_messages().subscription(), expected);
}

#[test]
fn screens_stamp_what_they_take_by_the_clock() {
    let mut app = Taco::new();
    app.update(AppMessage::LoginScreen(LoginScreenMessage::LoggedIn(session("alice"))));
    let before = chrono::Utc::now().timestamp_millis();
    let created = taco_chat::requests::WsMessageData::CreateChat(taco_chat::requests::WsCreateChat {
        chat_id: "c1".to_string(),
        members: vec!["alice".to_string(), "bob".to_string()],
    });
    let pushed = ChatListMessage::LetterListMessage(LetterListMessage::WsEvent(
        taco_chat::ws_client::WsEvent::Message(created),
    ));
    let command = app.update(AppMessage::MainScreen(MainScreenMessage::ChatList(pushed)));
    let after = chrono::Utc::now().timestamp_millis();
    assert_eq!(
        command,
        AppCommand::MainScreen(vec![MainScreenCommand::ChatList(ChatListCommand::LoadProfilePicture {
            chat_id: "c1".to_string(),
            user_id: "bob".to_string(),
        })])
    );
    let stamp = main_screen(&app).chat_list().chat(&"c1".to_string()).unwrap().last_updated;
    assert!(before <= stamp && stamp <= after);
    let (mut screen, _) = MainScreen::new(session("bob"));
    assert_eq!(screen.update(MainScreenMessage::SettingsClosed), vec![]);
}
