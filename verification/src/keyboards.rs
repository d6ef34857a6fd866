//! The inline keyboards of the screens and wizards, as rows of buttons that
//! each carry the action they send back.

use vstd::prelude::*;

use crate::callback_data::{CallbackAction, ServiceAction};
use crate::text::{int_str, lit, push_i64, push_str};

verus! {

/// A button: its label and the action it sends back.
#[derive(Debug, Clone, PartialEq, Eq)]
pub struct Button {
    pub text: String,
    pub action: CallbackAction,
}

pub open spec fn button_view(b: Button) -> (Seq<char>, CallbackAction) {
    (b.text@, b.action)
}

pub open spec fn row_view(r: Seq<Button>) -> Seq<(Seq<char>, CallbackAction)> {
    r.map_values(|b: Button| button_view(b))
}

/// The rows of a keyboard as labels and actions.
pub open spec fn keyboard_view(k: Seq<Vec<Button>>) -> Seq<Seq<(Seq<char>, CallbackAction)>> {
    k.map_values(|r: Vec<Button>| row_view(r@))
}

fn button(text: &str, action: CallbackAction) -> (r: Button)
    ensures
        button_view(r) == (text@, action),
{
    Button { text: lit(text), action }
}

fn row1(a: Button) -> (r: Vec<Button>)
    ensures
        row_view(r@) == seq![button_view(a)],
{
    let r = vec![a];
    assert(row_view(r@) =~= seq![button_view(a)]);
    r
}

fn row2(a: Button, b: Button) -> (r: Vec<Button>)
    ensures
        row_view(r@) == seq![button_view(a), button_view(b)],
{
    let r = vec![a, b];
    assert(row_view(r@) =~= seq![button_view(a), button_view(b)]);
    r
}

fn push_row(k: &mut Vec<Vec<Button>>, r: Vec<Button>)
    ensures
        keyboard_view(final(k)@) == keyboard_view(old(k)@).push(row_view(r@)),
{
    k.push(r);
    assert(keyboard_view(k@) =~= keyboard_view(old(k)@).push(row_view(r@)));
}

/// "📄 page/total" with at least one page.
pub open spec fn page_label(page: i64, total_pages: i64) -> Seq<char> {
    "📄 "@ + int_str(page as int) + "/"@ + int_str(
        if total_pages < 1 {
            1
        } else {
            total_pages as int
        },
    )
}

/// The page before (not below 1) and after (not beyond the last).
pub open spec fn prev_page(page: i64) -> i64 {
    if page > 1 {
        (page - 1) as i64
    } else {
        1
    }
}

pub open spec fn next_page(page: i64, total_pages: i64) -> i64 {
    if page < total_pages {
        (page + 1) as i64
    } else {
        total_pages
    }
}

/// Paging moves by one: the page before a page above the first is one less,
/// the first page has no page before it but itself, the page after a page
/// below the last is one more, and the last page has none after it but itself.
pub proof fn lemma_page_navigation(page: i64, total_pages: i64)
    ensures
        page > 1 ==> prev_page(page) + 1 == page,
        page <= 1 ==> prev_page(page) == 1,
        page < total_pages ==> next_page(page, total_pages) == page + 1,
        page >= total_pages ==> next_page(page, total_pages) == total_pages,
        1 <= page <= total_pages ==> 1 <= prev_page(page) <= page <= next_page(page, total_pages)
            <= total_pages,
{
}

fn nav_row(page: i64, total_pages: i64, previous: CallbackAction, current: CallbackAction, next: CallbackAction) -> (r: Vec<Button>)
    ensures
        row_view(r@) == seq![("⬅️"@, previous), (page_label(page, total_pages), current), ("➡️"@, next)],
{
    let mut label = lit("📄 ");
    push_i64(&mut label, page);
    push_str(&mut label, "/");
    push_i64(&mut label, if total_pages < 1 {
        1
    } else {
        total_pages
    });
    let r = vec![button("⬅️", previous), Button { text: label, action: current }, button("➡️", next)];
    assert(row_view(r@) =~= seq![("⬅️"@, previous), (page_label(page, total_pages), current), ("➡️"@, next)]);
    r
}

/// Approve and reject buttons under a new request.
pub fn approve_reject_buttons(request_id: i64) -> (r: Vec<Vec<Button>>)
    ensures
        keyboard_view(r@) == seq![
            seq![
                ("✅ Одобрить"@, CallbackAction::ApproveRequest { request_id, page: 1 }),
                ("❌ Отклонить"@, CallbackAction::RejectRequest { request_id, page: 1 }),
            ],
        ],
{
    let mut k: Vec<Vec<Button>> = Vec::new();
    push_row(
        &mut k,
        row2(
            button("✅ Одобрить", CallbackAction::ApproveRequest { request_id, page: 1 }),
            button("❌ Отклонить", CallbackAction::RejectRequest { request_id, page: 1 }),
        ),
    );
    assert(keyboard_view(k@) =~= seq![
        seq![
            ("✅ Одобрить"@, CallbackAction::ApproveRequest { request_id, page: 1 }),
            ("❌ Отклонить"@, CallbackAction::RejectRequest { request_id, page: 1 }),
        ],
    ]);
    k
}

pub fn user_home_keyboard() -> (r: Vec<Vec<Button>>)
    ensures
        keyboard_view(r@) == seq![
            seq![("🔑 Ввести invite-токен"@, CallbackAction::PromptInviteToken), ("❓ Инструкция"@, CallbackAction::ShowUsageGuide)],
            seq![("🔗 Получить ссылку"@, CallbackAction::ShowUserLink)],
            seq![("🔄 Обновить статус"@, CallbackAction::ShowUserHome)],
        ],
{
    let mut k: Vec<Vec<Button>> = Vec::new();
    push_row(&mut k, row2(button("🔑 Ввести invite-токен", CallbackAction::PromptInviteToken), button("❓ Инструкция", CallbackAction::ShowUsageGuide)));
    push_row(&mut k, row1(button("🔗 Получить ссылку", CallbackAction::ShowUserLink)));
    push_row(&mut k, row1(button("🔄 Обновить статус", CallbackAction::ShowUserHome)));
    assert(keyboard_view(k@) =~= seq![
        seq![("🔑 Ввести invite-токен"@, CallbackAction::PromptInviteToken), ("❓ Инструкция"@, CallbackAction::ShowUsageGuide)],
        seq![("🔗 Получить ссылку"@, CallbackAction::ShowUserLink)],
        seq![("🔄 Обновить статус"@, CallbackAction::ShowUserHome)],
    ]);
    k
}

pub fn guide_keyboard() -> (r: Vec<Vec<Button>>)
    ensures
        keyboard_view(r@) == seq![seq![("⬅️ Назад"@, CallbackAction::ShowUserHome)]],
{
    let mut k: Vec<Vec<Button>> = Vec::new();
    push_row(&mut k, row1(button("⬅️ Назад", CallbackAction::ShowUserHome)));
    assert(keyboard_view(k@) =~= seq![seq![("⬅️ Назад"@, CallbackAction::ShowUserHome)]]);
    k
}

pub fn admin_home_keyboard() -> (r: Vec<Vec<Button>>)
    ensures
        keyboard_view(r@) == seq![
            seq![("📥 Заявки"@, CallbackAction::ShowPendingRequests), ("👥 Пользователи"@, CallbackAction::ShowUsersPage { page: 1 })],
            seq![("🎟 Токены"@, CallbackAction::ShowTokenMenu), ("⚙️ Сервис"@, CallbackAction::ShowServicePanel)],
            seq![("📊 Статистика"@, CallbackAction::ShowStats)],
        ],
{
    let mut k: Vec<Vec<Button>> = Vec::new();
    push_row(&mut k, row2(button("📥 Заявки", CallbackAction::ShowPendingRequests), button("👥 Пользователи", CallbackAction::ShowUsersPage { page: 1 })));
    push_row(&mut k, row2(button("🎟 Токены", CallbackAction::ShowTokenMenu), button("⚙️ Сервис", CallbackAction::ShowServicePanel)));
    push_row(&mut k, row1(button("📊 Статистика", CallbackAction::ShowStats)));
    assert(keyboard_view(k@) =~= seq![
        seq![("📥 Заявки"@, CallbackAction::ShowPendingRequests), ("👥 Пользователи"@, CallbackAction::ShowUsersPage { page: 1 })],
        seq![("🎟 Токены"@, CallbackAction::ShowTokenMenu), ("⚙️ Сервис"@, CallbackAction::ShowServicePanel)],
        seq![("📊 Статистика"@, CallbackAction::ShowStats)],
    ]);
    k
}

pub open spec fn item_pairs(items: Seq<(i64, String)>) -> Seq<(i64, Seq<char>)> {
    items.map_values(|p: (i64, String)| (p.0, p.1@))
}

/// One row per listed item: its button opens it on the same page.
pub open spec fn item_rows(items: Seq<(i64, Seq<char>)>, prefix: Seq<char>, kind: int, page: i64) -> Seq<Seq<(Seq<char>, CallbackAction)>> {
    items.map_values(
        |p: (i64, Seq<char>)|
            seq![
                (
                    prefix + p.1,
                    if kind == 0 {
                        CallbackAction::OpenPendingRequest { request_id: p.0, page }
                    } else if kind == 1 {
                        CallbackAction::OpenUserCard { tg_user_id: p.0, page }
                    } else {
                        CallbackAction::OpenTokenCard { token_id: p.0, page }
                    },
                ),
            ],
    )
}

fn push_item_rows(k: &mut Vec<Vec<Button>>, items: &Vec<(i64, String)>, prefix: &str, kind: u8, page: i64)
    requires
        kind <= 2,
    ensures
        keyboard_view(final(k)@) == keyboard_view(old(k)@) + item_rows(item_pairs(items@), prefix@, kind as int, page),
{
    let ghost want = item_rows(item_pairs(items@), prefix@, kind as int, page);
    for i in 0..items.len()
        invariant
            kind <= 2,
            want == item_rows(item_pairs(items@), prefix@, kind as int, page),
            want.len() == items@.len(),
            keyboard_view(k@) == keyboard_view(old(k)@) + want.take(i as int),
    {
        let id = items[i].0;
        let mut label = lit(prefix);
        push_str(&mut label, items[i].1.as_str());
        let action = if kind == 0 {
            CallbackAction::OpenPendingRequest { request_id: id, page }
        } else if kind == 1 {
            CallbackAction::OpenUserCard { tg_user_id: id, page }
        } else {
            CallbackAction::OpenTokenCard { token_id: id, page }
        };
        let b = Button { text: label, action };
        assert(item_pairs(items@)[i as int] == (id, items@[i as int].1@));
        push_row(k, row1(b));
        assert(want.take(i + 1) =~= want.take(i as int).push(want[i as int]));
    }
    assert(want.take(items@.len() as int) =~= want);
}

/// The list of pending requests: one button per request, page navigation,
/// refresh and home.
pub fn pending_requests_keyboard(requests: &Vec<(i64, String)>, page: i64, total_pages: i64) -> (r: Vec<Vec<Button>>)
    ensures
        keyboard_view(r@) == item_rows(item_pairs(requests@), ""@, 0, page) + seq![
            seq![
                ("⬅️"@, CallbackAction::ShowPendingRequestsPage { page: prev_page(page) }),
                (page_label(page, total_pages), CallbackAction::ShowPendingRequestsPage { page }),
                ("➡️"@, CallbackAction::ShowPendingRequestsPage { page: next_page(page, total_pages) }),
            ],
            seq![("🔄 Обновить"@, CallbackAction::ShowPendingRequestsPage { page }), ("🏠 Главная"@, CallbackAction::ShowAdminHome)],
        ],
        page > 1 ==> keyboard_view(r@)[requests@.len() as int][0]
            == ("⬅️"@, CallbackAction::ShowPendingRequestsPage { page: (page - 1) as i64 }),
        page <= 1 ==> keyboard_view(r@)[requests@.len() as int][0]
            == ("⬅️"@, CallbackAction::ShowPendingRequestsPage { page: 1 }),
        page < total_pages ==> keyboard_view(r@)[requests@.len() as int][2]
            == ("➡️"@, CallbackAction::ShowPendingRequestsPage { page: (page + 1) as i64 }),
        page >= total_pages ==> keyboard_view(r@)[requests@.len() as int][2]
            == ("➡️"@, CallbackAction::ShowPendingRequestsPage { page: total_pages }),
{
    let mut k: Vec<Vec<Button>> = Vec::new();
    push_item_rows(&mut k, requests, "", 0, page);
    let prev = if page > 1 {
        page - 1
    } else {
        1
    };
    let next = if page < total_pages {
        page + 1
    } else {
        total_pages
    };
    push_row(
        &mut k,
        nav_row(
            page,
            total_pages,
            CallbackAction::ShowPendingRequestsPage { page: prev },
            CallbackAction::ShowPendingRequestsPage { page },
            CallbackAction::ShowPendingRequestsPage { page: next },
        ),
    );
    push_row(&mut k, row2(button("🔄 Обновить", CallbackAction::ShowPendingRequestsPage { page }), button("🏠 Главная", CallbackAction::ShowAdminHome)));
    k
}

pub fn pending_request_card_keyboard(request_id: i64, page: i64) -> (r: Vec<Vec<Button>>)
    ensures
        keyboard_view(r@) == seq![
            seq![("✅ Одобрить"@, CallbackAction::ApproveRequest { request_id, page }), ("❌ Отклонить"@, CallbackAction::RejectRequest { request_id, page })],
            seq![("⬅️ Назад к заявкам"@, CallbackAction::ShowPendingRequestsPage { page })],
        ],
{
    let mut k: Vec<Vec<Button>> = Vec::new();
    push_row(&mut k, row2(button("✅ Одобрить", CallbackAction::ApproveRequest { request_id, page }), button("❌ Отклонить", CallbackAction::RejectRequest { request_id, page })));
    push_row(&mut k, row1(button("⬅️ Назад к заявкам", CallbackAction::ShowPendingRequestsPage { page })));
    assert(keyboard_view(k@) =~= seq![
        seq![("✅ Одобрить"@, CallbackAction::ApproveRequest { request_id, page }), ("❌ Отклонить"@, CallbackAction::RejectRequest { request_id, page })],
        seq![("⬅️ Назад к заявкам"@, CallbackAction::ShowPendingRequestsPage { page })],
    ]);
    k
}

pub fn pending_result_keyboard(page: i64) -> (r: Vec<Vec<Button>>)
    ensures
        keyboard_view(r@) == seq![
            seq![("⬅️ К заявкам"@, CallbackAction::ShowPendingRequestsPage { page })],
            seq![("🏠 Главная"@, CallbackAction::ShowAdminHome)],
        ],
{
    let mut k: Vec<Vec<Button>> = Vec::new();
    push_row(&mut k, row1(button("⬅️ К заявкам", CallbackAction::ShowPendingRequestsPage { page })));
    push_row(&mut k, row1(button("🏠 Главная", CallbackAction::ShowAdminHome)));
    assert(keyboard_view(k@) =~= seq![
        seq![("⬅️ К заявкам"@, CallbackAction::ShowPendingRequestsPage { page })],
        seq![("🏠 Главная"@, CallbackAction::ShowAdminHome)],
    ]);
    k
}

/// The list of users: one button per user, navigation, refresh and lookup,
/// delete, and home.
pub fn users_page_keyboard(users: &Vec<(i64, String)>, page: i64, total_pages: i64) -> (r: Vec<Vec<Button>>)
    ensures
        keyboard_view(r@) == item_rows(item_pairs(users@), "👤 "@, 1, page) + seq![
            seq![
                ("⬅️"@, CallbackAction::ShowUsersPage { page: prev_page(page) }),
                (page_label(page, total_pages), CallbackAction::ShowUsersPage { page }),
                ("➡️"@, CallbackAction::ShowUsersPage { page: next_page(page, total_pages) }),
            ],
            seq![("🔄 Обновить"@, CallbackAction::ShowUsersPage { page }), ("🔎 Найти"@, CallbackAction::PromptUserLookup { page })],
            seq![("⛔ Удалить"@, CallbackAction::PromptDeleteUser)],
            seq![("🏠 Главная"@, CallbackAction::ShowAdminHome)],
        ],
        page > 1 ==> keyboard_view(r@)[users@.len() as int][0]
            == ("⬅️"@, CallbackAction::ShowUsersPage { page: (page - 1) as i64 }),
        page <= 1 ==> keyboard_view(r@)[users@.len() as int][0]
            == ("⬅️"@, CallbackAction::ShowUsersPage { page: 1 }),
        page < total_pages ==> keyboard_view(r@)[users@.len() as int][2]
            == ("➡️"@, CallbackAction::ShowUsersPage { page: (page + 1) as i64 }),
        page >= total_pages ==> keyboard_view(r@)[users@.len() as int][2]
            == ("➡️"@, CallbackAction::ShowUsersPage { page: total_pages }),
{
    let mut k: Vec<Vec<Button>> = Vec::new();
    push_item_rows(&mut k, users, "👤 ", 1, page);
    let prev = if page > 1 {
        page - 1
    } else {
        1
    };
    let next = if page < total_pages {
        page + 1
    } else {
        total_pages
    };
    push_row(&mut k, nav_row(page, total_pages, CallbackAction::ShowUsersPage { page: prev }, CallbackAction::ShowUsersPage { page }, CallbackAction::ShowUsersPage { page: next }));
    push_row(&mut k, row2(button("🔄 Обновить", CallbackAction::ShowUsersPage { page }), button("🔎 Найти", CallbackAction::PromptUserLookup { page })));
    push_row(&mut k, row1(button("⛔ Удалить", CallbackAction::PromptDeleteUser)));
    push_row(&mut k, row1(button("🏠 Главная", CallbackAction::ShowAdminHome)));
    k
}

pub fn user_card_keyboard(tg_user_id: i64, page: i64) -> (r: Vec<Vec<Button>>)
    ensures
        keyboard_view(r@) == seq![
            seq![("🔗 Данные + QR"@, CallbackAction::ViewUserQr { tg_user_id })],
            seq![("⛔ Удалить пользователя"@, CallbackAction::ConfirmUserBan { tg_user_id, page })],
            seq![("⬅️ Назад к списку"@, CallbackAction::ShowUsersPage { page })],
        ],
{
    let mut k: Vec<Vec<Button>> = Vec::new();
    push_row(&mut k, row1(button("🔗 Данные + QR", CallbackAction::ViewUserQr { tg_user_id })));
    push_row(&mut k, row1(button("⛔ Удалить пользователя", CallbackAction::ConfirmUserBan { tg_user_id, page })));
    push_row(&mut k, row1(button("⬅️ Назад к списку", CallbackAction::ShowUsersPage { page })));
    assert(keyboard_view(k@) =~= seq![
        seq![("🔗 Данные + QR"@, CallbackAction::ViewUserQr { tg_user_id })],
        seq![("⛔ Удалить пользователя"@, CallbackAction::ConfirmUserBan { tg_user_id, page })],
        seq![("⬅️ Назад к списку"@, CallbackAction::ShowUsersPage { page })],
    ]);
    k
}

pub fn service_control_buttons() -> (r: Vec<Vec<Button>>)
    ensures
        keyboard_view(r@) == seq![
            seq![
                ("🔄 Обновить"@, CallbackAction::ShowServicePanel),
                ("📖 Reload"@, CallbackAction::ExecuteServiceAction { action: ServiceAction::Reload }),
            ],
            seq![
                ("🔄 Перезапустить"@, CallbackAction::ConfirmServiceAction { action: ServiceAction::Restart }),
                ("⏹ Остановить"@, CallbackAction::ConfirmServiceAction { action: ServiceAction::Stop }),
            ],
            seq![
                ("▶️ Запустить"@, CallbackAction::ExecuteServiceAction { action: ServiceAction::Start }),
                ("🏠 Главная"@, CallbackAction::ShowAdminHome),
            ],
        ],
{
    let mut k: Vec<Vec<Button>> = Vec::new();
    push_row(&mut k, row2(button("🔄 Обновить", CallbackAction::ShowServicePanel), button("📖 Reload", CallbackAction::ExecuteServiceAction { action: ServiceAction::Reload })));
    push_row(&mut k, row2(button("🔄 Перезапустить", CallbackAction::ConfirmServiceAction { action: ServiceAction::Restart }), button("⏹ Остановить", CallbackAction::ConfirmServiceAction { action: ServiceAction::Stop })));
    push_row(&mut k, row2(button("▶️ Запустить", CallbackAction::ExecuteServiceAction { action: ServiceAction::Start }), button("🏠 Главная", CallbackAction::ShowAdminHome)));
    assert(keyboard_view(k@) =~= seq![
        seq![
            ("🔄 Обновить"@, CallbackAction::ShowServicePanel),
            ("📖 Reload"@, CallbackAction::ExecuteServiceAction { action: ServiceAction::Reload }),
        ],
        seq![
            ("🔄 Перезапустить"@, CallbackAction::ConfirmServiceAction { action: ServiceAction::Restart }),
            ("⏹ Остановить"@, CallbackAction::ConfirmServiceAction { action: ServiceAction::Stop }),
        ],
        seq![
            ("▶️ Запустить"@, CallbackAction::ExecuteServiceAction { action: ServiceAction::Start }),
            ("🏠 Главная"@, CallbackAction::ShowAdminHome),
        ],
    ]);
    k
}

/// The token menu; the automatic-token button only where the configuration allows it.
pub fn token_menu_keyboard(auto_approve_enabled: bool) -> (r: Vec<Vec<Button>>)
    ensures
        keyboard_view(r@) == seq![seq![("📋 Список токенов"@, CallbackAction::ShowTokenListPage { page: 1 })]] + (if auto_approve_enabled {
            seq![seq![("🚀 Создать авто-токен"@, CallbackAction::PromptTokenCreate { auto_approve: true })]]
        } else {
            Seq::<Seq<(Seq<char>, CallbackAction)>>::empty()
        }) + seq![
            seq![("🎫 Создать ручной токен"@, CallbackAction::PromptTokenCreate { auto_approve: false })],
            seq![("🏠 Главная"@, CallbackAction::ShowAdminHome)],
        ],
{
    let mut k: Vec<Vec<Button>> = Vec::new();
    push_row(&mut k, row1(button("📋 Список токенов", CallbackAction::ShowTokenListPage { page: 1 })));
    if auto_approve_enabled {
        push_row(&mut k, row1(button("🚀 Создать авто-токен", CallbackAction::PromptTokenCreate { auto_approve: true })));
    }
    push_row(&mut k, row1(button("🎫 Создать ручной токен", CallbackAction::PromptTokenCreate { auto_approve: false })));
    push_row(&mut k, row1(button("🏠 Главная", CallbackAction::ShowAdminHome)));
    assert(keyboard_view(k@) =~= seq![seq![("📋 Список токенов"@, CallbackAction::ShowTokenListPage { page: 1 })]] + (if auto_approve_enabled {
        seq![seq![("🚀 Создать авто-токен"@, CallbackAction::PromptTokenCreate { auto_approve: true })]]
    } else {
        Seq::<Seq<(Seq<char>, CallbackAction)>>::empty()
    }) + seq![
        seq![("🎫 Создать ручной токен"@, CallbackAction::PromptTokenCreate { auto_approve: false })],
        seq![("🏠 Главная"@, CallbackAction::ShowAdminHome)],
    ]);
    k
}

/// The list of tokens: one button per token, navigation, refresh and lookup,
/// back and home.
pub fn token_list_keyboard(tokens: &Vec<(i64, String)>, page: i64, total_pages: i64) -> (r: Vec<Vec<Button>>)
    ensures
        keyboard_view(r@) == item_rows(item_pairs(tokens@), "🎟 "@, 2, page) + seq![
            seq![
                ("⬅️"@, CallbackAction::ShowTokenListPage { page: prev_page(page) }),
                (page_label(page, total_pages), CallbackAction::ShowTokenListPage { page }),
                ("➡️"@, CallbackAction::ShowTokenListPage { page: next_page(page, total_pages) }),
            ],
            seq![("🔄 Обновить"@, CallbackAction::ShowTokenListPage { page }), ("🔎 Найти"@, CallbackAction::PromptTokenLookup { page })],
            seq![("⬅️ Назад"@, CallbackAction::ShowTokenMenu), ("🏠 Главная"@, CallbackAction::ShowAdminHome)],
        ],
        page > 1 ==> keyboard_view(r@)[tokens@.len() as int][0]
            == ("⬅️"@, CallbackAction::ShowTokenListPage { page: (page - 1) as i64 }),
        page <= 1 ==> keyboard_view(r@)[tokens@.len() as int][0]
            == ("⬅️"@, CallbackAction::ShowTokenListPage { page: 1 }),
        page < total_pages ==> keyboard_view(r@)[tokens@.len() as int][2]
            == ("➡️"@, CallbackAction::ShowTokenListPage { page: (page + 1) as i64 }),
        page >= total_pages ==> keyboard_view(r@)[tokens@.len() as int][2]
            == ("➡️"@, CallbackAction::ShowTokenListPage { page: total_pages }),
{
    let mut k: Vec<Vec<Button>> = Vec::new();
    push_item_rows(&mut k, tokens, "🎟 ", 2, page);
    let prev = if page > 1 {
        page - 1
    } else {
        1
    };
    let next = if page < total_pages {
        page + 1
    } else {
        total_pages
    };
    push_row(&mut k, nav_row(page, total_pages, CallbackAction::ShowTokenListPage { page: prev }, CallbackAction::ShowTokenListPage { page }, CallbackAction::ShowTokenListPage { page: next }));
    push_row(&mut k, row2(button("🔄 Обновить", CallbackAction::ShowTokenListPage { page }), button("🔎 Найти", CallbackAction::PromptTokenLookup { page })));
    push_row(&mut k, row2(button("⬅️ Назад", CallbackAction::ShowTokenMenu), button("🏠 Главная", CallbackAction::ShowAdminHome)));
    k
}

pub fn token_card_keyboard(token_id: i64, page: i64) -> (r: Vec<Vec<Button>>)
    ensures
        keyboard_view(r@) == seq![
            seq![("🗑 Отозвать токен"@, CallbackAction::ConfirmTokenRevoke { token_id, page })],
            seq![("⬅️ Назад к списку"@, CallbackAction::ShowTokenListPage { page })],
        ],
{
    let mut k: Vec<Vec<Button>> = Vec::new();
    push_row(&mut k, row1(button("🗑 Отозвать токен", CallbackAction::ConfirmTokenRevoke { token_id, page })));
    push_row(&mut k, row1(button("⬅️ Назад к списку", CallbackAction::ShowTokenListPage { page })));
    assert(keyboard_view(k@) =~= seq![
        seq![("🗑 Отозвать токен"@, CallbackAction::ConfirmTokenRevoke { token_id, page })],
        seq![("⬅️ Назад к списку"@, CallbackAction::ShowTokenListPage { page })],
    ]);
    k
}

/// A confirmation row: "✅ <yes>" runs `confirm`, the second button goes back.
fn confirm_keyboard(yes: &str, confirm: CallbackAction, no: &str, back: CallbackAction) -> (r: Vec<Vec<Button>>)
    ensures
        keyboard_view(r@) == seq![seq![(yes@, confirm), (no@, back)]],
{
    let mut k: Vec<Vec<Button>> = Vec::new();
    push_row(&mut k, row2(button(yes, confirm), button(no, back)));
    assert(keyboard_view(k@) =~= seq![seq![(yes@, confirm), (no@, back)]]);
    k
}

pub fn confirm_token_revoke_keyboard(token_id: i64, page: i64) -> (r: Vec<Vec<Button>>)
    ensures
        keyboard_view(r@) == seq![
            seq![("✅ Подтвердить"@, CallbackAction::ExecuteTokenRevoke { token_id, page }), ("⬅️ Назад"@, CallbackAction::OpenTokenCard { token_id, page })],
        ],
{
    confirm_keyboard("✅ Подтвердить", CallbackAction::ExecuteTokenRevoke { token_id, page }, "⬅️ Назад", CallbackAction::OpenTokenCard { token_id, page })
}

pub fn confirm_service_action_keyboard(action: ServiceAction) -> (r: Vec<Vec<Button>>)
    ensures
        keyboard_view(r@) == seq![
            seq![("✅ Подтвердить"@, CallbackAction::ExecuteServiceAction { action }), ("⬅️ Назад"@, CallbackAction::ShowServicePanel)],
        ],
{
    confirm_keyboard("✅ Подтвердить", CallbackAction::ExecuteServiceAction { action }, "⬅️ Назад", CallbackAction::ShowServicePanel)
}

pub fn stats_keyboard() -> (r: Vec<Vec<Button>>)
    ensures
        keyboard_view(r@) == seq![seq![("🔄 Обновить"@, CallbackAction::ShowStats), ("🏠 Главная"@, CallbackAction::ShowAdminHome)]],
{
    confirm_keyboard("🔄 Обновить", CallbackAction::ShowStats, "🏠 Главная", CallbackAction::ShowAdminHome)
}

/// "Back" to the given screen and "cancel" the wizard.
pub fn cancel_keyboard(back_action: CallbackAction) -> (r: Vec<Vec<Button>>)
    ensures
        keyboard_view(r@) == seq![seq![("⬅️ Назад"@, back_action), ("✖️ Отмена"@, CallbackAction::CancelWizard)]],
{
    confirm_keyboard("⬅️ Назад", back_action, "✖️ Отмена", CallbackAction::CancelWizard)
}

pub fn confirm_delete_keyboard(tg_user_id: i64) -> (r: Vec<Vec<Button>>)
    ensures
        keyboard_view(r@) == seq![
            seq![("✅ Да, удалить"@, CallbackAction::ExecuteDeleteUser { tg_user_id }), ("✖️ Отмена"@, CallbackAction::ShowAdminHome)],
        ],
{
    confirm_keyboard("✅ Да, удалить", CallbackAction::ExecuteDeleteUser { tg_user_id }, "✖️ Отмена", CallbackAction::ShowAdminHome)
}

pub fn confirm_user_ban_keyboard(tg_user_id: i64, page: i64) -> (r: Vec<Vec<Button>>)
    ensures
        keyboard_view(r@) == seq![
            seq![("✅ Подтвердить"@, CallbackAction::ExecuteUserBan { tg_user_id, page }), ("⬅️ Назад"@, CallbackAction::OpenUserCard { tg_user_id, page })],
        ],
{
    confirm_keyboard("✅ Подтвердить", CallbackAction::ExecuteUserBan { tg_user_id, page }, "⬅️ Назад", CallbackAction::OpenUserCard { tg_user_id, page })
}

} // verus!
