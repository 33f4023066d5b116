use event_manager::commands::{parse_user_command, parse_admin_command, UserCommand, AdminCommand};
use event_manager::admin::event_added_reply;

#[test]
fn user_commands() {
    assert_eq!(parse_user_command("/start"), UserCommand::ShowEventList);
    assert_eq!(parse_user_command("/start 42"), UserCommand::ShowEvent { event_id: 42 });
    assert_eq!(parse_user_command("/start +42"), UserCommand::ShowEvent { event_id: 42 });
    assert_eq!(parse_user_command("/start x42"), UserCommand::Unknown);
    assert_eq!(parse_user_command("/start donate_150"), UserCommand::Donate { amount: 150 });
    assert_eq!(parse_user_command("/start donate_"), UserCommand::Unknown);
    assert_eq!(parse_user_command("/start 1 2"), UserCommand::ShowEventList);
    assert_eq!(parse_user_command("/donate"), UserCommand::Donate { amount: 500 });
    assert_eq!(parse_user_command("/help"), UserCommand::Help);
    assert_eq!(parse_user_command("/crt"), UserCommand::Unknown);
    assert_eq!(parse_user_command("two adults"), UserCommand::AddAttachment);
    assert_eq!(parse_user_command(""), UserCommand::AddAttachment);
    assert_eq!(parse_user_command("/start 18446744073709551616"), UserCommand::Unknown);
}

#[test]
fn direct_link_opens_event() {
    let reply = event_added_reply("mybot", 12345);
    assert_eq!(reply, "Direct event link: https://t.me/mybot?start=12345");
    let param = reply.rsplit('=').next().unwrap();
    assert_eq!(parse_user_command(&format!("/start {}", param)), UserCommand::ShowEvent { event_id: 12345 });
    assert_eq!(event_added_reply("mybot", 0), "Failed to add event.");
}

#[test]
fn admin_commands() {
    match parse_admin_command("/send confirmed 5 Hello all") {
        AdminCommand::Send { waiting_list, event_id, text } => {
            assert_eq!(waiting_list, 0);
            assert_eq!(event_id, 5);
            assert_eq!(text, "Hello all");
        }
        other => panic!("unexpected {:?}", other),
    }
    match parse_admin_command("/send waiting 6 Hi") {
        AdminCommand::Send { waiting_list, event_id, .. } => {
            assert_eq!(waiting_list, 1);
            assert_eq!(event_id, 6);
        }
        other => panic!("unexpected {:?}", other),
    }
    assert!(matches!(parse_admin_command("/ban 77"), AdminCommand::Ban { user_id: 77 }));
    assert!(matches!(parse_admin_command("/remove_from_black_list 77"), AdminCommand::RemoveFromBlackList { user_id: 77 }));
    assert!(matches!(parse_admin_command("/delete_event 3"), AdminCommand::DeleteEvent { event_id: 3 }));
    match parse_admin_command("/delete_link https://x.y") {
        AdminCommand::DeleteLink { link } => assert_eq!(link, "https://x.y"),
        other => panic!("unexpected {:?}", other),
    }
    assert!(matches!(parse_admin_command("/delete_reservation 3 4"), AdminCommand::DeleteReservation { event_id: 3, user_id: 4 }));
    assert!(matches!(parse_admin_command("/set_group_leader 3 4"), AdminCommand::SetGroupLeader { event_id: 3, user_id: 4 }));
    assert!(matches!(parse_admin_command("/show_black_list"), AdminCommand::ShowBlackList));
    assert!(matches!(parse_admin_command("/set_event_limits 3 10 5"),
        AdminCommand::SetEventLimits { event_id: 3, max_adults: 10, max_children: 5 }));
    assert!(matches!(parse_admin_command("/help"), AdminCommand::Help));
    assert!(matches!(parse_admin_command("{\"name\":\"x\"}"), AdminCommand::AddEvent));
    assert!(matches!(parse_admin_command("/start 9"), AdminCommand::User(UserCommand::ShowEvent { event_id: 9 })));
    assert!(matches!(parse_admin_command("hello"), AdminCommand::User(UserCommand::AddAttachment)));
}
