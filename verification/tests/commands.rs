use support_bot::commands::coupon::{CouponCommand, CouponState};
use support_bot::commands::forceroles::{ForceRolesCommand, ForceRolesState};
use support_bot::commands::gmodstore::{GmodStoreCommand, GmodStoreState, GmodstoreCommandRuntimeError};
use support_bot::commands::purchases::{PurchasesCommand, PurchasesState};
use support_bot::commands::roles::{RolesCommand, RolesState};
use support_bot::commands::steam::{SteamCommand, SteamState};
use support_bot::commands::unlink::{UnlinkCommand, UnlinkState};
use support_bot::commands::{Command, CommandRuntimeError};
use support_bot::events::member::{member_create, has_channel, JoinState, MemberCreateEventRuntimeError};
use support_bot::flow::{Action, Event, Failure, Invocation, Target};
use support_bot::handler::{CommandKind, Handler, Session};
use support_bot::http::{ApiPurchaseObject, CouponBuilder, GMSCouponObject, HttpClient, User};

const NOT_LINKED_ROLES: &str = "**You are not linked.** Linking your account at <https://leystryku.support/> is required before you can receive support roles.";

fn handler() -> Handler {
    Handler { http: HttpClient::new("https://link.example".to_string()).unwrap() }
}

fn account(store_id: Option<&str>) -> User {
    User {
        uuid: "uuid-1".to_string(),
        name: Some("Ley".to_string()),
        steam_id: 76561198000000000,
        discord_id: Some(42),
        gmod_store_id: store_id.map(|s| s.to_string()),
        avatar: None,
        created_at: "2024-01-01T00:00:00+00:00".to_string(),
        updated_at: "2024-01-01T00:00:00+00:00".to_string(),
    }
}

fn flags(bits: u8) -> ApiPurchaseObject {
    ApiPurchaseObject {
        lsac: bits & 1 != 0,
        swift_ac: bits & 2 != 0,
        hit_reg: bits & 4 != 0,
        screen_grabs: bits & 8 != 0,
        workshop_dl: bits & 16 != 0,
        sexy_errors: bits & 32 != 0,
    }
}

fn coupon(code: &str, bound_user: Option<&str>, expires_at: &str) -> GMSCouponObject {
    GMSCouponObject {
        id: format!("id-{}", code),
        code: code.to_string(),
        percent: 25,
        max_uses: 1,
        bound_user: bound_user.map(|b| b.to_string()),
        expires_at: expires_at.to_string(),
        created_at: "2024-01-01T00:00:00+00:00".to_string(),
        updated_at: "2024-01-01T00:00:00+00:00".to_string(),
    }
}

fn invoked_by(user_id: u64) -> Event {
    Event::Invoked(Invocation { user_id, has_member: true, guild_id: Some(1), target: Target::Missing })
}

fn aimed_at(id: u64, is_member: bool, guild_id: Option<u64>) -> Event {
    Event::Invoked(Invocation {
        user_id: 1,
        has_member: true,
        guild_id,
        target: Target::User {
            id,
            name: "ley".to_string(),
            discriminator: 7,
            icon_url: "https://cdn.example/a.png".to_string(),
            is_member,
        },
    })
}

fn reply_of(action: Action) -> String {
    match action {
        Action::Reply { content } => content,
        other => panic!("expected a reply, got {:?}", other),
    }
}

#[test]
fn coupon_tells_an_unlinked_user_so() {
    let h = handler();
    let (state, action) = CouponCommand::execute(&h, CouponState::Idle, invoked_by(42));
    assert!(matches!(state, CouponState::Account));
    assert!(matches!(action, Action::Lookup { discord_id: 42 }));
    let (state, action) = CouponCommand::execute(&h, state, Event::Account(None));
    assert!(matches!(state, CouponState::Done));
    assert_eq!(reply_of(action), "You are not linked");
}

#[test]
fn coupon_refuses_owners_of_the_product() {
    let h = handler();
    let (state, action) =
        CouponCommand::execute(&h, CouponState::Account, Event::Account(Some(account(Some("s-1")))));
    assert!(matches!(&state, CouponState::Purchases { user } if user.uuid == "uuid-1"));
    assert!(matches!(&action, Action::FetchPurchases { user } if user.uuid == "uuid-1"));
    // owning the product ends the command before the store is asked anything
    let (state, action) = CouponCommand::execute(&h, state, Event::Purchases(flags(1 | 2)));
    assert!(matches!(state, CouponState::Done));
    assert_eq!(reply_of(action), "You already own LSAC!");
}

#[test]
fn coupon_asks_for_the_prerequisite() {
    let h = handler();
    let state = CouponState::Purchases { user: account(Some("s-1")) };
    let (state, action) = CouponCommand::execute(&h, state, Event::Purchases(flags(4)));
    assert!(matches!(state, CouponState::Done));
    assert_eq!(reply_of(action), "You must own SwiftAC to get coupon for LSAC!");
}

#[test]
fn coupon_is_created_for_a_qualifying_user() {
    let h = handler();
    let state = CouponState::Purchases { user: account(Some("s-1")) };
    let (state, action) = CouponCommand::execute(&h, state, Event::Purchases(flags(2)));
    assert!(matches!(state, CouponState::Coupons { .. }));
    match action {
        Action::ListCoupons { product, filter } => {
            assert_eq!(product, "6c5e862b-3dcf-4769-aa6b-8a001937c56b");
            assert_eq!(filter.0, "filter[boundUserId]");
            assert_eq!(filter.1, "s-1");
        }
        other => panic!("expected a listing, got {:?}", other),
    }
    let (state, action) = CouponCommand::execute(&h, state, Event::Coupons(Vec::new()));
    assert!(matches!(state, CouponState::Creation));
    let code = match action {
        Action::CreateCoupon { product, coupon } => {
            assert_eq!(product, "6c5e862b-3dcf-4769-aa6b-8a001937c56b");
            assert_eq!(coupon.percent, 25);
            assert_eq!(coupon.max_uses, 1);
            assert_eq!(coupon.bound_user_id, Some("s-1".to_string()));
            assert_eq!(coupon.code.len(), 24);
            assert!(coupon.code.bytes().all(|b| b.is_ascii_lowercase() || b.is_ascii_digit()));
            assert!(chrono::DateTime::parse_from_rfc3339(&coupon.expires_at).is_ok());
            coupon.code
        }
        other => panic!("expected a creation, got {:?}", other),
    };
    let created = coupon(&code, Some("s-1"), "2030-01-01T00:00:00+00:00");
    let (state, action) = CouponCommand::execute(&h, state, Event::Created(created));
    assert!(matches!(state, CouponState::Done));
    assert_eq!(reply_of(action), format!("Use code: `{}`, it expires in 7 days.", code));
}

#[test]
fn new_codes_fit_the_store_limits() {
    for _ in 0..20 {
        let code = CouponCommand::new_code();
        assert!(1 <= code.len() && code.len() <= 64);
        assert!(code.is_ascii());
        assert!(CouponBuilder::check(&code, 25, 1).is_ok());
    }
}

#[test]
fn coupon_codes_differ_between_runs() {
    let h = handler();
    let mut codes = Vec::new();
    for _ in 0..3 {
        let state = CouponState::Coupons { user: account(Some("s-1")) };
        match CouponCommand::execute(&h, state, Event::Coupons(Vec::new())).1 {
            Action::CreateCoupon { coupon, .. } => codes.push(coupon.code),
            other => panic!("expected a creation, got {:?}", other),
        }
    }
    assert_ne!(codes[0], codes[1]);
    assert_ne!(codes[1], codes[2]);
    assert_ne!(codes[0], codes[2]);
}

#[test]
fn coupon_hands_out_an_existing_code_again() {
    let h = handler();
    let listing = vec![
        coupon("gone", Some("s-1"), "2001-01-01T00:00:00+00:00"),
        coupon("keep", Some("s-1"), "9000-01-01T00:00:00+00:00"),
        coupon("later", Some("s-1"), "9001-01-01T00:00:00+00:00"),
    ];
    let state = CouponState::Coupons { user: account(Some("s-1")) };
    let (state, action) = CouponCommand::execute(&h, state, Event::Coupons(listing));
    assert!(matches!(state, CouponState::Done));
    assert_eq!(reply_of(action), "You already have a valid coupon code, use code `keep`");
}

#[test]
fn coupon_fails_without_a_store_id_or_on_a_broken_listing() {
    let h = handler();
    let state = CouponState::Purchases { user: account(None) };
    let (state, action) = CouponCommand::execute(&h, state, Event::Purchases(flags(2)));
    assert!(matches!(state, CouponState::Done));
    assert!(matches!(action, Action::Abort { reason: Failure::NoStoreId }));
    let state = CouponState::Coupons { user: account(None) };
    let (state, action) = CouponCommand::execute(&h, state, Event::Coupons(Vec::new()));
    assert!(matches!(state, CouponState::Done));
    assert!(matches!(action, Action::Abort { reason: Failure::NoStoreId }));
    let state = CouponState::Coupons { user: account(Some("s-1")) };
    let listing = vec![coupon("x", Some("s-1"), "soon")];
    let (state, action) = CouponCommand::execute(&h, state, Event::Coupons(listing));
    assert!(matches!(state, CouponState::Done));
    assert!(matches!(action, Action::Abort { reason: Failure::UnreadableExpiry }));
}

#[test]
fn a_failed_step_aborts_every_command() {
    let h = handler();
    let (s, a) = CouponCommand::execute(&h, CouponState::Account, Event::Failed);
    assert!(matches!(s, CouponState::Done));
    assert!(matches!(a, Action::Abort { reason: Failure::StepFailed }));
    let (s, a) = RolesCommand::execute(&handler(), RolesState::Assigning { member: 42, roles: vec![1, 2], at: 0 }, Event::Failed);
    assert!(matches!(s, RolesState::Done) && matches!(a, Action::Abort { reason: Failure::StepFailed }));
    let (s, a) = UnlinkCommand::execute(&handler(), UnlinkState::Unlinking { target: 3 }, Event::Failed);
    assert!(matches!(s, UnlinkState::Done) && matches!(a, Action::Abort { reason: Failure::StepFailed }));
    let (s, a) = SteamCommand::execute(&handler(), SteamState::Account, Event::RoleAdded);
    assert!(matches!(s, SteamState::Done));
    assert!(matches!(a, Action::Abort { reason: Failure::Unexpected }));
    let (s, a) = member_create(JoinState::Role, Event::Failed);
    assert!(matches!(s, JoinState::Done) && matches!(a, Action::Abort { reason: Failure::StepFailed }));
}

#[test]
fn unlink_of_an_unlinked_user_deletes_nothing() {
    let (state, action) = UnlinkCommand::execute(&handler(), UnlinkState::Idle, aimed_at(42, false, None));
    assert!(matches!(state, UnlinkState::Account { target: 42 }));
    assert!(matches!(action, Action::Lookup { discord_id: 42 }));
    let (state, action) = UnlinkCommand::execute(&handler(), state, Event::Account(None));
    assert!(matches!(state, UnlinkState::Done));
    assert_eq!(reply_of(action), "<@42> is not linked.");
}

#[test]
fn unlink_deletes_and_confirms() {
    let state = UnlinkState::Account { target: 42 };
    let (state, action) = UnlinkCommand::execute(&handler(), state, Event::Account(Some(account(None))));
    assert!(matches!(state, UnlinkState::Unlinking { target: 42 }));
    assert!(matches!(&action, Action::Unlink { user } if user.uuid == "uuid-1"));
    let (state, action) = UnlinkCommand::execute(&handler(), state, Event::Unlinked);
    assert!(matches!(state, UnlinkState::Done));
    assert_eq!(reply_of(action), "Unlinked <@42>");
}

#[test]
fn commands_with_a_target_need_a_user_option() {
    let cases = [
        (Target::Missing, Failure::NoTarget),
        (Target::Unresolved, Failure::UnresolvedTarget),
        (Target::Other, Failure::TargetNotUser),
    ];
    for (target, why) in cases {
        let event = |t: Target| {
            Event::Invoked(Invocation { user_id: 1, has_member: true, guild_id: Some(9), target: t })
        };
        let clone = |t: &Target| match t {
            Target::Missing => Target::Missing,
            Target::Unresolved => Target::Unresolved,
            _ => Target::Other,
        };
        let (s, a) = UnlinkCommand::execute(&handler(), UnlinkState::Idle, event(clone(&target)));
        assert!(matches!(s, UnlinkState::Done) && matches!(a, Action::Abort { reason } if reason == why));
        let (s, a) = SteamCommand::execute(&handler(), SteamState::Idle, event(clone(&target)));
        assert!(matches!(s, SteamState::Done) && matches!(a, Action::Abort { reason } if reason == why));
        let (s, a) = GmodStoreCommand::execute(&handler(), GmodStoreState::Idle, event(clone(&target)));
        assert!(matches!(s, GmodStoreState::Done) && matches!(a, Action::Abort { reason } if reason == why));
        let (s, a) = PurchasesCommand::execute(&handler(), PurchasesState::Idle, event(clone(&target)));
        assert!(matches!(s, PurchasesState::Done) && matches!(a, Action::Abort { reason } if reason == why));
        let (s, a) = ForceRolesCommand::execute(&handler(), ForceRolesState::Idle, event(clone(&target)));
        assert!(matches!(s, ForceRolesState::Done) && matches!(a, Action::Abort { reason } if reason == why));
    }
}

#[test]
fn not_linked_path_answers_the_same_every_time() {
    let h = handler();
    let first = reply_of(CouponCommand::execute(&h, CouponState::Account, Event::Account(None)).1);
    let second = reply_of(CouponCommand::execute(&h, CouponState::Account, Event::Account(None)).1);
    assert_eq!(first, second);
    let first = reply_of(
        UnlinkCommand::execute(&handler(), UnlinkState::Account { target: 42 }, Event::Account(None)).1,
    );
    let second = reply_of(
        UnlinkCommand::execute(&handler(), UnlinkState::Account { target: 42 }, Event::Account(None)).1,
    );
    assert_eq!(first, second);
    assert_eq!(first, "<@42> is not linked.");
    let first = reply_of(RolesCommand::execute(&handler(), RolesState::Account { member: 42 }, Event::Account(None)).1);
    let second = reply_of(RolesCommand::execute(&handler(), RolesState::Account { member: 42 }, Event::Account(None)).1);
    assert_eq!(first, second);
    assert_eq!(first, NOT_LINKED_ROLES);
    let first = reply_of(
        h.step(Session::Steam(SteamState::Account), Event::Account(None)).1,
    );
    let second = reply_of(
        h.step(Session::Steam(SteamState::Account), Event::Account(None)).1,
    );
    assert_eq!(first, second);
    assert_eq!(first, "User is not linked.");
}

#[test]
fn roles_are_added_one_by_one() {
    let (state, action) = RolesCommand::execute(&handler(), RolesState::Idle, invoked_by(42));
    assert!(matches!(state, RolesState::Account { member: 42 }));
    assert!(matches!(action, Action::Lookup { discord_id: 42 }));
    let (state, action) = RolesCommand::execute(&handler(), state, Event::Account(Some(account(None))));
    assert!(matches!(state, RolesState::Purchases { member: 42 }));
    assert!(matches!(&action, Action::FetchPurchases { user } if user.uuid == "uuid-1"));
    let (mut state, mut action) = RolesCommand::execute(&handler(), state, Event::Purchases(flags(1 | 8 | 16)));
    let mut added = Vec::new();
    loop {
        match action {
            Action::AddRole { user_id, role } => {
                assert_eq!(user_id, 42);
                added.push(role)
            }
            Action::Reply { content } => {
                assert_eq!(content, "Your roles have been assigned");
                break;
            }
            other => panic!("unexpected step {:?}", other),
        }
        let step = RolesCommand::execute(&handler(), state, Event::RoleAdded);
        state = step.0;
        action = step.1;
    }
    assert!(matches!(state, RolesState::Done));
    assert_eq!(added, vec![884061162482847765, 889306784551026780, 884060628128497716]);
}

#[test]
fn roles_without_purchases_or_member_data() {
    let (state, action) = RolesCommand::execute(&handler(), RolesState::Purchases { member: 42 }, Event::Purchases(flags(0)));
    assert!(matches!(state, RolesState::Done));
    assert_eq!(reply_of(action), "Your roles have been assigned");
    let event = Event::Invoked(Invocation {
        user_id: 42,
        has_member: false,
        guild_id: None,
        target: Target::Missing,
    });
    let (state, action) = RolesCommand::execute(&handler(), RolesState::Idle, event);
    assert!(matches!(state, RolesState::Done));
    assert!(matches!(action, Action::Abort { reason: Failure::NoMember }));
    let stale = RolesState::Assigning { member: 42, roles: vec![1], at: 5 };
    let (state, action) = RolesCommand::execute(&handler(), stale, Event::RoleAdded);
    assert!(matches!(state, RolesState::Done));
    assert!(matches!(action, Action::Abort { reason: Failure::Unexpected }));
}

#[test]
fn every_number_of_flags_gives_as_many_role_steps() {
    for bits in 0..64u8 {
        let (mut state, mut action) =
            RolesCommand::execute(&handler(), RolesState::Purchases { member: 42 }, Event::Purchases(flags(bits)));
        let mut steps = 0;
        while let Action::AddRole { .. } = action {
            steps += 1;
            let step = RolesCommand::execute(&handler(), state, Event::RoleAdded);
            state = step.0;
            action = step.1;
        }
        assert!(matches!(action, Action::Reply { .. }));
        assert_eq!(steps, bits.count_ones());
    }
}

#[test]
fn force_roles_walks_through_member_lookup_and_roles() {
    let (state, action) = ForceRolesCommand::execute(&handler(), ForceRolesState::Idle, aimed_at(42, true, Some(9)));
    assert!(matches!(state, ForceRolesState::Member { target: 42 }));
    assert!(matches!(action, Action::FetchMember { guild_id: 9, user_id: 42 }));
    let (state, action) = ForceRolesCommand::execute(&handler(), state, Event::Member);
    assert!(matches!(state, ForceRolesState::Account { target: 42 }));
    assert!(matches!(action, Action::Lookup { discord_id: 42 }));
    let (state, action) = ForceRolesCommand::execute(&handler(), state, Event::Account(Some(account(None))));
    assert!(matches!(state, ForceRolesState::Purchases { target: 42 }));
    assert!(matches!(&action, Action::FetchPurchases { user } if user.uuid == "uuid-1"));
    let (state, action) = ForceRolesCommand::execute(&handler(), state, Event::Purchases(flags(16 | 32)));
    assert!(matches!(action, Action::AddRole { user_id: 42, role: 884060628128497716 }));
    let (state, action) = ForceRolesCommand::execute(&handler(), state, Event::RoleAdded);
    assert!(matches!(action, Action::AddRole { user_id: 42, role: 884060823205609473 }));
    let (state, action) = ForceRolesCommand::execute(&handler(), state, Event::RoleAdded);
    assert!(matches!(state, ForceRolesState::Done));
    assert_eq!(reply_of(action), "Successfully added roles to <@42>");
}

#[test]
fn force_roles_needs_a_member_of_a_guild() {
    let (s, a) = ForceRolesCommand::execute(&handler(), ForceRolesState::Idle, aimed_at(42, false, Some(9)));
    assert!(matches!(s, ForceRolesState::Done));
    assert!(matches!(a, Action::Abort { reason: Failure::TargetNotMember }));
    let (s, a) = ForceRolesCommand::execute(&handler(), ForceRolesState::Idle, aimed_at(42, true, None));
    assert!(matches!(s, ForceRolesState::Done));
    assert!(matches!(a, Action::Abort { reason: Failure::NoGuild }));
    let state = ForceRolesState::Account { target: 42 };
    let (s, a) = ForceRolesCommand::execute(&handler(), state, Event::Account(None));
    assert!(matches!(s, ForceRolesState::Done));
    assert_eq!(reply_of(a), NOT_LINKED_ROLES);
}

#[test]
fn gmodstore_links_the_store_profile() {
    let (state, action) = GmodStoreCommand::execute(&handler(), GmodStoreState::Idle, aimed_at(42, false, None));
    assert!(matches!(state, GmodStoreState::Account));
    assert!(matches!(action, Action::Lookup { discord_id: 42 }));
    let (state, action) =
        GmodStoreCommand::execute(&handler(), state, Event::Account(Some(account(Some("s-1")))));
    assert!(matches!(state, GmodStoreState::Done));
    assert_eq!(reply_of(action), "https://www.gmodstore.com/users/s-1");
    let (_, action) =
        GmodStoreCommand::execute(&handler(), GmodStoreState::Account, Event::Account(Some(account(None))));
    assert_eq!(reply_of(action), "User does not have a registered GmodStore account.");
    let (_, action) = GmodStoreCommand::execute(&handler(), GmodStoreState::Account, Event::Account(None));
    assert_eq!(reply_of(action), "User is not linked.");
}

#[test]
fn steam_links_the_steam_profile() {
    let (state, action) = SteamCommand::execute(&handler(), SteamState::Idle, aimed_at(42, false, None));
    assert!(matches!(state, SteamState::Account));
    assert!(matches!(action, Action::Lookup { discord_id: 42 }));
    let (state, action) = SteamCommand::execute(&handler(), state, Event::Account(Some(account(None))));
    assert!(matches!(state, SteamState::Done));
    assert_eq!(reply_of(action), "https://steamcommunity.com/profiles/76561198000000000");
    let (_, action) = SteamCommand::execute(&handler(), SteamState::Account, Event::Account(None));
    assert_eq!(reply_of(action), "User is not linked.");
}

#[test]
fn purchases_lists_the_six_products() {
    let (state, action) = PurchasesCommand::execute(&handler(), PurchasesState::Idle, aimed_at(42, false, None));
    assert!(matches!(action, Action::Lookup { discord_id: 42 }));
    match &state {
        PurchasesState::Account { author } => {
            assert_eq!(author.name, "ley#7");
            assert_eq!(author.icon_url, "https://cdn.example/a.png");
        }
        other => panic!("unexpected state {:?}", other),
    }
    let (state, action) = PurchasesCommand::execute(&handler(), state, Event::Account(Some(account(None))));
    assert!(matches!(state, PurchasesState::Purchases { .. }));
    assert!(matches!(&action, Action::FetchPurchases { user } if user.uuid == "uuid-1"));
    let (state, action) = PurchasesCommand::execute(&handler(), state, Event::Purchases(flags(1 | 4 | 32)));
    assert!(matches!(state, PurchasesState::Done));
    match action {
        Action::ReplyEmbed { embed } => {
            assert_eq!(embed.title, "User Purchases");
            assert_eq!(embed.colour, 0xBF8AE0);
            let author = embed.author.unwrap();
            assert_eq!(author.name, "ley#7");
            assert_eq!(author.icon_url, "https://cdn.example/a.png");
            assert!(embed.field.is_none());
            assert_eq!(
                embed.description,
                "✅ | Ley's Server-Side AntiCheat\n                ❌ | SwiftAC\n                ✅ | Ley's HitReg\n                ❌ | Ley's Screengrabs\n                ❌ | Ley WorkshopDL\n                ✅ | Ley Sexy Errors"
            );
        }
        other => panic!("expected an embed, got {:?}", other),
    }
}

#[test]
fn purchases_of_an_unlinked_user() {
    let (state, _) = PurchasesCommand::execute(&handler(), PurchasesState::Idle, aimed_at(42, false, None));
    let (state, action) = PurchasesCommand::execute(&handler(), state, Event::Account(None));
    assert!(matches!(state, PurchasesState::Done));
    match action {
        Action::ReplyEmbed { embed } => {
            assert_eq!(embed.title, "User is not linked");
            assert_eq!(
                embed.description,
                "The user is not linked or has no valid GmodStore account."
            );
            assert_eq!(embed.colour, 0xBF8AE0);
            assert_eq!(embed.author.unwrap().name, "ley#7");
        }
        other => panic!("expected an embed, got {:?}", other),
    }
}

#[test]
fn join_welcomes_and_verifies_a_linked_member() {
    let (state, action) = member_create(JoinState::Idle, Event::Joined { user_id: 42 });
    assert!(matches!(state, JoinState::Channels { user_id: 42 }));
    assert!(matches!(action, Action::FetchChannels));
    let (state, action) = member_create(state, Event::Channels(vec![5, 884064278112522260, 6]));
    assert!(matches!(state, JoinState::Welcome { user_id: 42 }));
    match action {
        Action::Welcome { channel_id, content, embed } => {
            assert_eq!(channel_id, 884064278112522260);
            assert_eq!(content, "<@42>");
            assert_eq!(embed.title, "Welcome");
            assert_eq!(
                embed.description,
                "Welcome to the support server for Leystryku's GmodStore addons.\n                If you are not already verified please read <#884069163306479647>"
            );
            assert_eq!(embed.colour, 0x85F2F2);
            assert!(embed.author.is_none());
            let field = embed.field.unwrap();
            assert_eq!(field.name, "**Please remember to read the rules**");
            assert_eq!(field.value, "<#884050630241550376>");
            assert!(!field.inline);
        }
        other => panic!("expected a welcome, got {:?}", other),
    }
    let (state, action) = member_create(state, Event::Sent);
    assert!(matches!(state, JoinState::Account { user_id: 42 }));
    assert!(matches!(action, Action::Lookup { discord_id: 42 }));
    let (state, action) = member_create(state, Event::Account(Some(account(None))));
    assert!(matches!(state, JoinState::Role));
    assert!(matches!(action, Action::AddRole { user_id: 42, role: 884063960582721597 }));
    let (state, action) = member_create(state, Event::RoleAdded);
    assert!(matches!(state, JoinState::Done));
    assert!(matches!(action, Action::Finish));
}

#[test]
fn join_of_an_unlinked_member_changes_no_role() {
    let state = JoinState::Channels { user_id: 42 };
    let (state, action) = member_create(state, Event::Channels(vec![5, 6]));
    assert!(matches!(state, JoinState::Account { user_id: 42 }));
    assert!(matches!(action, Action::Lookup { discord_id: 42 }));
    let (state, action) = member_create(state, Event::Account(None));
    assert!(matches!(state, JoinState::Done));
    assert!(matches!(action, Action::Finish));
    assert!(has_channel(&vec![1, 2, 3], 3));
    assert!(!has_channel(&vec![1, 2, 3], 4));
    assert!(!has_channel(&Vec::new(), 4));
}

#[test]
fn names_route_to_their_commands() {
    assert_eq!(Handler::route("coupon"), Some(CommandKind::Coupon));
    assert_eq!(Handler::route("force-roles"), Some(CommandKind::ForceRoles));
    assert_eq!(Handler::route("gmodstore"), Some(CommandKind::GmodStore));
    assert_eq!(Handler::route("purchases"), Some(CommandKind::Purchases));
    assert_eq!(Handler::route("roles"), Some(CommandKind::Roles));
    assert_eq!(Handler::route("steam"), Some(CommandKind::Steam));
    assert_eq!(Handler::route("unlink"), Some(CommandKind::Unlink));
    assert_eq!(Handler::route("Coupon"), None);
    assert_eq!(Handler::route(""), None);
    assert_eq!(Handler::route("forceroles"), None);
    assert!(Handler::interaction_create("ping").is_none());
    assert!(matches!(
        Handler::interaction_create("unlink"),
        Some(Session::Unlink(UnlinkState::Idle))
    ));
    assert!(matches!(Handler::begin(CommandKind::Coupon), Session::Coupon(CouponState::Idle)));
}

#[test]
fn every_registered_command_routes_to_itself() {
    let registered = Handler::ready();
    let kinds = [
        CommandKind::Coupon,
        CommandKind::ForceRoles,
        CommandKind::GmodStore,
        CommandKind::Purchases,
        CommandKind::Roles,
        CommandKind::Steam,
        CommandKind::Unlink,
    ];
    assert_eq!(registered.len(), kinds.len());
    for (registration, kind) in registered.iter().zip(kinds) {
        assert_eq!(Handler::route(&registration.name), Some(kind));
        assert!(!registration.dm_permission);
    }
}

#[test]
fn registrations_carry_names_options_and_permissions() {
    let r = CouponCommand::register();
    assert_eq!(r.name, "coupon");
    assert_eq!(r.description, "Generate a coupon for LSAC.");
    assert!(r.user_option.is_none() && !r.moderators_only);
    let r = ForceRolesCommand::register();
    assert_eq!(r.name, "force-roles");
    assert_eq!(r.description, "Forcefully assign roles to a user");
    assert_eq!(
        r.user_option,
        Some(("member".to_string(), "User to force roles upon.".to_string()))
    );
    assert!(r.moderators_only);
    let r = GmodStoreCommand::register();
    assert_eq!(r.name, "gmodstore");
    assert_eq!(r.description, "Retrieve user GmodStore account page.");
    assert_eq!(r.user_option, Some(("user".to_string(), "User to fetch".to_string())));
    assert!(!r.moderators_only);
    let r = PurchasesCommand::register();
    assert_eq!(r.name, "purchases");
    assert_eq!(r.description, "Retrieve user's GmodStore purchases.");
    assert_eq!(
        r.user_option,
        Some(("user".to_string(), "User to fetch purchases for.".to_string()))
    );
    assert!(r.moderators_only);
    let r = RolesCommand::register();
    assert_eq!(r.name, "roles");
    assert_eq!(r.description, "Get access to the support channels");
    assert!(r.user_option.is_none() && !r.moderators_only);
    let r = SteamCommand::register();
    assert_eq!(r.name, "steam");
    assert_eq!(r.description, "Retrieve user Steam account page.");
    assert_eq!(r.user_option, Some(("user".to_string(), "User to fetch".to_string())));
    let r = UnlinkCommand::register();
    assert_eq!(r.name, "unlink");
    assert_eq!(r.description, "Unlink user account");
    assert_eq!(r.user_option, Some(("user".to_string(), "The user to unlink".to_string())));
    assert!(r.moderators_only);
}

#[test]
fn session_steps_the_command_it_holds() {
    let h = handler();
    let session = Handler::interaction_create("steam").unwrap();
    let (session, action) = h.step(session, aimed_at(42, false, None));
    assert!(matches!(session, Session::Steam(SteamState::Account)));
    assert!(matches!(action, Action::Lookup { discord_id: 42 }));
    let (session, action) = h.step(session, Event::Account(Some(account(None))));
    assert!(matches!(session, Session::Steam(SteamState::Done)));
    assert_eq!(reply_of(action), "https://steamcommunity.com/profiles/76561198000000000");
    let session = Handler::interaction_create("coupon").unwrap();
    let (session, _) = h.step(session, invoked_by(42));
    let (session, action) = h.step(session, Event::Account(None));
    assert!(matches!(session, Session::Coupon(CouponState::Done)));
    assert_eq!(reply_of(action), "You are not linked");
}

#[test]
fn failures_say_what_went_wrong() {
    assert_eq!(Failure::NoTarget.message(), "Failed to get command target");
    assert_eq!(Failure::UnresolvedTarget.message(), "Failed to parse command target as a user");
    assert_eq!(
        Failure::TargetNotUser.message(),
        "Failed to fetch and validate user from command target"
    );
    assert_eq!(
        Failure::TargetNotMember.message(),
        "Failed to fetch and validate member from command target"
    );
    assert_eq!(Failure::NoGuild.message(), "Failed to fetch guild id from command target");
    assert_eq!(Failure::NoMember.message(), "Failed to get member from command");
    assert_eq!(Failure::NoStoreId.message(), "Failed to get user's GmodStore ID");
    assert_eq!(
        Failure::UnreadableExpiry.message(),
        "An error occurred whilst parsing the expiry date"
    );
    assert_eq!(Failure::CouponRefused.message(), "An error occurred whilst building the coupon");
    assert_eq!(Failure::StepFailed.message(), "The step that was asked for failed");
    assert_eq!(
        Failure::Unexpected.message(),
        "The report does not answer what the command was waiting for"
    );
}

#[test]
fn command_error_messages_are_fixed() {
    assert_eq!(
        CommandRuntimeError.message(),
        "Bot Error: An error occurred whilst running a command"
    );
    assert_eq!(
        GmodstoreCommandRuntimeError.message(),
        "Bot Error: An error occurred whilst running the gmodstore command"
    );
    assert_eq!(
        MemberCreateEventRuntimeError.message(),
        "Bot Error: An error occurred whilst running the member_add event hooks"
    );
}
