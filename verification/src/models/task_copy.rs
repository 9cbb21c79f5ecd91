//! Field-by-field copies of tasks, whose contracts say what the copy holds
//! (a derived `clone` comes with no contract).
use vstd::prelude::*;

use crate::models::task::{
    Attachment, FolderReference, LinkedTask, ListReference, Priority, ProjectReference,
    SpaceReference, Tag, Task, TaskContent, TaskDescription, TaskReference, TaskSharing,
    TaskStatus,
};
use crate::models::user::User;

verus! {

/// A copy of an optional text.
fn copy_text(o: &Option<String>) -> (r: Option<String>)
    ensures
        r == *o,
{
    match o {
        Some(s) => Some(s.clone()),
        None => None,
    }
}

/// A copy of a list of texts.
fn copy_texts(v: &Vec<String>) -> (r: Vec<String>)
    ensures
        r@ == v@,
{
    let mut r: Vec<String> = Vec::new();
    let mut i: usize = 0;
    while i < v.len()
        invariant
            i <= v.len(),
            r@ == v@.take(i as int),
        decreases v.len() - i,
    {
        r.push(v[i].clone());
        i = i + 1;
        assert(r@ =~= v@.take(i as int));
    }
    assert(v@.take(v.len() as int) =~= v@);
    r
}

/// A copy of a `User`.
pub fn copy_user(x: &User) -> (r: User)
    ensures
        r == *x,
{
    User {
        id: x.id,
        username: x.username.clone(),
        color: copy_text(&x.color),
        email: copy_text(&x.email),
        profile_picture: copy_text(&x.profile_picture),
        initials: copy_text(&x.initials),
    }
}

fn copy_opt_user(o: &Option<User>) -> (r: Option<User>)
    ensures
        r == *o,
{
    match o {
        Some(x) => Some(copy_user(x)),
        None => None,
    }
}

/// A copy of a `TaskStatus`.
pub fn copy_task_status(x: &TaskStatus) -> (r: TaskStatus)
    ensures
        r == *x,
{
    TaskStatus {
        id: copy_text(&x.id),
        status: x.status.clone(),
        color: copy_text(&x.color),
        type_field: copy_text(&x.type_field),
        orderindex: x.orderindex,
        status_group: copy_text(&x.status_group),
    }
}

fn copy_opt_task_status(o: &Option<TaskStatus>) -> (r: Option<TaskStatus>)
    ensures
        r == *o,
{
    match o {
        Some(x) => Some(copy_task_status(x)),
        None => None,
    }
}

/// A copy of a `Tag`.
pub fn copy_tag(x: &Tag) -> (r: Tag)
    ensures
        r == *x,
{
    Tag {
        id: copy_text(&x.id),
        name: x.name.clone(),
        color: copy_text(&x.color),
        tag_fg: copy_text(&x.tag_fg),
        tag_bg: copy_text(&x.tag_bg),
        creator: x.creator,
    }
}

fn copy_opt_tag(o: &Option<Tag>) -> (r: Option<Tag>)
    ensures
        r == *o,
{
    match o {
        Some(x) => Some(copy_tag(x)),
        None => None,
    }
}

/// A copy of a `LinkedTask`.
pub fn copy_linked_task(x: &LinkedTask) -> (r: LinkedTask)
    ensures
        r == *x,
{
    LinkedTask {
        id: copy_text(&x.id),
        task_id: copy_text(&x.task_id),
        link_id: copy_text(&x.link_id),
        name: copy_text(&x.name),
        status: copy_text(&x.status),
        date_created: copy_text(&x.date_created),
        userid: copy_text(&x.userid),
        workspace_id: copy_text(&x.workspace_id),
    }
}

fn copy_opt_linked_task(o: &Option<LinkedTask>) -> (r: Option<LinkedTask>)
    ensures
        r == *o,
{
    match o {
        Some(x) => Some(copy_linked_task(x)),
        None => None,
    }
}

/// A copy of a `TaskReference`.
pub fn copy_task_reference(x: &TaskReference) -> (r: TaskReference)
    ensures
        r == *x,
{
    TaskReference {
        id: x.id.clone(),
        name: copy_text(&x.name),
    }
}

fn copy_opt_task_reference(o: &Option<TaskReference>) -> (r: Option<TaskReference>)
    ensures
        r == *o,
{
    match o {
        Some(x) => Some(copy_task_reference(x)),
        None => None,
    }
}

/// A copy of a `Priority`.
pub fn copy_priority(x: &Priority) -> (r: Priority)
    ensures
        r == *x,
{
    Priority {
        priority: x.priority.clone(),
        color: copy_text(&x.color),
    }
}

fn copy_opt_priority(o: &Option<Priority>) -> (r: Option<Priority>)
    ensures
        r == *o,
{
    match o {
        Some(x) => Some(copy_priority(x)),
        None => None,
    }
}

/// A copy of a `Attachment`.
pub fn copy_attachment(x: &Attachment) -> (r: Attachment)
    ensures
        r == *x,
{
    Attachment {
        id: x.id.clone(),
        version: x.version,
        date: x.date,
        title: copy_text(&x.title),
        url: copy_text(&x.url),
        mime_type: copy_text(&x.mime_type),
        extension: copy_text(&x.extension),
        thumbnail_small: copy_text(&x.thumbnail_small),
        thumbnail_large: copy_text(&x.thumbnail_large),
    }
}

fn copy_opt_attachment(o: &Option<Attachment>) -> (r: Option<Attachment>)
    ensures
        r == *o,
{
    match o {
        Some(x) => Some(copy_attachment(x)),
        None => None,
    }
}

/// A copy of a `ListReference`.
pub fn copy_list_reference(x: &ListReference) -> (r: ListReference)
    ensures
        r == *x,
{
    ListReference {
        id: x.id.clone(),
        name: copy_text(&x.name),
        access: x.access,
    }
}

fn copy_opt_list_reference(o: &Option<ListReference>) -> (r: Option<ListReference>)
    ensures
        r == *o,
{
    match o {
        Some(x) => Some(copy_list_reference(x)),
        None => None,
    }
}

/// A copy of a `FolderReference`.
pub fn copy_folder_reference(x: &FolderReference) -> (r: FolderReference)
    ensures
        r == *x,
{
    FolderReference {
        id: x.id.clone(),
        name: copy_text(&x.name),
        hidden: x.hidden,
        access: x.access,
    }
}

fn copy_opt_folder_reference(o: &Option<FolderReference>) -> (r: Option<FolderReference>)
    ensures
        r == *o,
{
    match o {
        Some(x) => Some(copy_folder_reference(x)),
        None => None,
    }
}

/// A copy of a `ProjectReference`.
pub fn copy_project_reference(x: &ProjectReference) -> (r: ProjectReference)
    ensures
        r == *x,
{
    ProjectReference {
        id: x.id.clone(),
        name: copy_text(&x.name),
        hidden: x.hidden,
        access: x.access,
    }
}

fn copy_opt_project_reference(o: &Option<ProjectReference>) -> (r: Option<ProjectReference>)
    ensures
        r == *o,
{
    match o {
        Some(x) => Some(copy_project_reference(x)),
        None => None,
    }
}

/// A copy of a `SpaceReference`.
pub fn copy_space_reference(x: &SpaceReference) -> (r: SpaceReference)
    ensures
        r == *x,
{
    SpaceReference {
        id: x.id.clone(),
        name: copy_text(&x.name),
        access: x.access,
    }
}

fn copy_opt_space_reference(o: &Option<SpaceReference>) -> (r: Option<SpaceReference>)
    ensures
        r == *o,
{
    match o {
        Some(x) => Some(copy_space_reference(x)),
        None => None,
    }
}

fn copy_users(v: &Vec<User>) -> (r: Vec<User>)
    ensures
        r@ == v@,
{
    let mut r: Vec<User> = Vec::new();
    let mut i: usize = 0;
    while i < v.len()
        invariant
            i <= v.len(),
            r@ == v@.take(i as int),
        decreases v.len() - i,
    {
        r.push(copy_user(&v[i]));
        i = i + 1;
        assert(r@ =~= v@.take(i as int));
    }
    assert(v@.take(v.len() as int) =~= v@);
    r
}

fn copy_tags(v: &Vec<Tag>) -> (r: Vec<Tag>)
    ensures
        r@ == v@,
{
    let mut r: Vec<Tag> = Vec::new();
    let mut i: usize = 0;
    while i < v.len()
        invariant
            i <= v.len(),
            r@ == v@.take(i as int),
        decreases v.len() - i,
    {
        r.push(copy_tag(&v[i]));
        i = i + 1;
        assert(r@ =~= v@.take(i as int));
    }
    assert(v@.take(v.len() as int) =~= v@);
    r
}

fn copy_attachments(v: &Vec<Attachment>) -> (r: Vec<Attachment>)
    ensures
        r@ == v@,
{
    let mut r: Vec<Attachment> = Vec::new();
    let mut i: usize = 0;
    while i < v.len()
        invariant
            i <= v.len(),
            r@ == v@.take(i as int),
        decreases v.len() - i,
    {
        r.push(copy_attachment(&v[i]));
        i = i + 1;
        assert(r@ =~= v@.take(i as int));
    }
    assert(v@.take(v.len() as int) =~= v@);
    r
}

fn copy_linked_tasks(v: &Vec<LinkedTask>) -> (r: Vec<LinkedTask>)
    ensures
        r@ == v@,
{
    let mut r: Vec<LinkedTask> = Vec::new();
    let mut i: usize = 0;
    while i < v.len()
        invariant
            i <= v.len(),
            r@ == v@.take(i as int),
        decreases v.len() - i,
    {
        r.push(copy_linked_task(&v[i]));
        i = i + 1;
        assert(r@ =~= v@.take(i as int));
    }
    assert(v@.take(v.len() as int) =~= v@);
    r
}

fn copy_description(o: &Option<TaskDescription>) -> (r: Option<TaskDescription>)
    ensures
        r == *o,
{
    match o {
        Some(TaskDescription::Plain(s)) => Some(TaskDescription::Plain(s.clone())),
        Some(TaskDescription::Rich { html, markdown, text }) => Some(
            TaskDescription::Rich {
                html: copy_text(html),
                markdown: copy_text(markdown),
                text: copy_text(text),
            },
        ),
        None => None,
    }
}

fn copy_content(o: &Option<TaskContent>) -> (r: Option<TaskContent>)
    ensures
        r == *o,
{
    match o {
        Some(TaskContent::Plain(s)) => Some(TaskContent::Plain(s.clone())),
        Some(TaskContent::Rich { html }) => Some(TaskContent::Rich { html: copy_text(html) }),
        None => None,
    }
}

/// Two sharing settings say the same: the same fields, the list of public
/// fields holding the same texts.
pub open spec fn same_sharing(a: Option<TaskSharing>, b: Option<TaskSharing>) -> bool {
    match (a, b) {
        (Some(x), Some(y)) => {
            &&& x.public == y.public
            &&& x.public_share_expires_on == y.public_share_expires_on
            &&& x.public_fields@ == y.public_fields@
            &&& x.token == y.token
            &&& x.seo_optimized == y.seo_optimized
        },
        (None, None) => true,
        _ => false,
    }
}

fn copy_sharing(o: &Option<TaskSharing>) -> (r: Option<TaskSharing>)
    ensures
        same_sharing(r, *o),
{
    match o {
        Some(x) => Some(
            TaskSharing {
                public: x.public,
                public_share_expires_on: x.public_share_expires_on,
                public_fields: copy_texts(&x.public_fields),
                token: copy_text(&x.token),
                seo_optimized: x.seo_optimized,
            },
        ),
        None => None,
    }
}

/// Two tasks say the same: every field is equal, lists holding the same
/// items.
pub open spec fn same_task(a: Task, b: Task) -> bool {
    &&& a.id == b.id
    &&& a.custom_id == b.custom_id
    &&& a.custom_item_id == b.custom_item_id
    &&& a.name == b.name
    &&& a.text_content == b.text_content
    &&& a.description == b.description
    &&& a.markdown_description == b.markdown_description
    &&& a.status == b.status
    &&& a.orderindex == b.orderindex
    &&& a.content == b.content
    &&& a.created_at == b.created_at
    &&& a.updated_at == b.updated_at
    &&& a.closed_at == b.closed_at
    &&& a.done_at == b.done_at
    &&& a.archived == b.archived
    &&& a.creator == b.creator
    &&& a.assignees@ == b.assignees@
    &&& a.group_assignees@ == b.group_assignees@
    &&& a.watchers@ == b.watchers@
    &&& a.tags@ == b.tags@
    &&& a.parent == b.parent
    &&& a.top_level_parent == b.top_level_parent
    &&& a.priority == b.priority
    &&& a.due_date == b.due_date
    &&& a.start_date == b.start_date
    &&& a.points == b.points
    &&& a.attachments@ == b.attachments@
    &&& a.linked_tasks@ == b.linked_tasks@
    &&& a.list == b.list
    &&& a.folder == b.folder
    &&& a.space == b.space
    &&& a.project == b.project
    &&& a.url == b.url
    &&& a.team_id == b.team_id
    &&& same_sharing(a.sharing, b.sharing)
    &&& a.permission_level == b.permission_level
    &&& a.time_estimate == b.time_estimate
    &&& a.time_spent == b.time_spent
}

/// A copy of a task, field by field.
pub fn copy_task(t: &Task) -> (r: Task)
    ensures
        same_task(r, *t),
{
    Task {
        id: t.id.clone(),
        custom_id: copy_text(&t.custom_id),
        custom_item_id: t.custom_item_id,
        name: t.name.clone(),
        text_content: copy_text(&t.text_content),
        description: copy_description(&t.description),
        markdown_description: copy_text(&t.markdown_description),
        status: copy_opt_task_status(&t.status),
        orderindex: copy_text(&t.orderindex),
        content: copy_content(&t.content),
        created_at: t.created_at,
        updated_at: t.updated_at,
        closed_at: t.closed_at,
        done_at: t.done_at,
        archived: t.archived,
        creator: copy_opt_user(&t.creator),
        assignees: copy_users(&t.assignees),
        group_assignees: copy_users(&t.group_assignees),
        watchers: copy_users(&t.watchers),
        tags: copy_tags(&t.tags),
        parent: copy_opt_task_reference(&t.parent),
        top_level_parent: copy_opt_task_reference(&t.top_level_parent),
        priority: copy_opt_priority(&t.priority),
        due_date: t.due_date,
        start_date: t.start_date,
        points: t.points,
        attachments: copy_attachments(&t.attachments),
        linked_tasks: copy_linked_tasks(&t.linked_tasks),
        list: copy_opt_list_reference(&t.list),
        folder: copy_opt_folder_reference(&t.folder),
        space: copy_opt_space_reference(&t.space),
        project: copy_opt_project_reference(&t.project),
        url: copy_text(&t.url),
        team_id: copy_text(&t.team_id),
        sharing: copy_sharing(&t.sharing),
        permission_level: copy_text(&t.permission_level),
        time_estimate: t.time_estimate,
        time_spent: t.time_spent,
    }
}

/// `c` holds a copy of each task of `ts`, in the same order.
pub open spec fn copies_of(ts: Seq<Task>, c: Seq<Task>) -> bool {
    &&& c.len() == ts.len()
    &&& forall|i: int| #![trigger c[i]] 0 <= i < ts.len() ==> same_task(c[i], ts[i])
}

/// A copy of each task, in the same order.
pub fn copy_tasks(v: &Vec<Task>) -> (r: Vec<Task>)
    ensures
        copies_of(v@, r@),
{
    let mut r: Vec<Task> = Vec::new();
    let mut i: usize = 0;
    while i < v.len()
        invariant
            i <= v.len(),
            r@.len() == i,
            forall|j: int| #![trigger r@[j]] 0 <= j < i ==> same_task(r@[j], v@[j]),
        decreases v.len() - i,
    {
        let c = copy_task(&v[i]);
        r.push(c);
        i = i + 1;
    }
    r
}

} // verus!
