use vstd::prelude::*;

verus! {

/// A named group of file patterns offered by a file dialog, such as `Images` with `*.png` and
/// `*.jpg`.
#[derive(Clone, Debug)]
pub struct FileFilter {
    pub name: String,
    pub filters: Vec<String>,
}

/// What a program asks of a file dialog.
#[derive(Clone, Debug)]
pub struct FileDialogData {
    pub title: Option<String>,
    pub initial_path: Option<String>,
    pub filters: Vec<FileFilter>,
}

/// The arguments handed to the native file dialog: its title, the path it starts at, and the
/// filter text.
#[derive(Clone, Debug)]
pub struct NativeFileDialogArgs {
    pub title: Option<String>,
    pub initial_path: Option<String>,
    pub filter: Option<String>,
}

/// The file dialog service of an application. Opening the native dialog is I/O; this type
/// prepares what is handed to it.
pub struct AppFileDialog;

/// The views of a vector of strings.
pub open spec fn string_views(v: Seq<String>) -> Seq<Seq<char>> {
    v.map_values(|s: String| s@)
}

/// `parts` joined with `sep` between each two neighbors.
pub open spec fn join_with(parts: Seq<Seq<char>>, sep: Seq<char>) -> Seq<char>
    decreases parts.len(),
{
    if parts.len() == 0 {
        Seq::empty()
    } else if parts.len() == 1 {
        parts[0]
    } else {
        join_with(parts.drop_last(), sep) + sep + parts.last()
    }
}

/// The text of one filter: its name, then its patterns separated by spaces in parentheses.
pub open spec fn filter_text(f: FileFilter) -> Seq<char> {
    f.name@ + seq![' ', '('] + join_with(string_views(f.filters@), seq![' ']) + seq![')']
}

/// The texts of all filters, separated by two semicolons.
pub open spec fn filters_text(filters: Seq<FileFilter>) -> Seq<char> {
    join_with(filters.map_values(|f: FileFilter| filter_text(f)), seq![';', ';'])
}

proof fn lemma_join_step(parts: Seq<Seq<char>>, sep: Seq<char>, j: int)
    requires
        0 <= j < parts.len(),
    ensures
        join_with(parts.take(j + 1), sep) == if j == 0 {
            parts[0]
        } else {
            join_with(parts.take(j), sep) + sep + parts[j]
        },
{
    assert(parts.take(j + 1).drop_last() == parts.take(j));
}

/// Appends `parts` joined with `sep` to `out`.
fn push_joined(out: &mut String, parts: &Vec<String>, sep: &str)
    ensures
        final(out)@ == old(out)@ + join_with(string_views(parts@), sep@),
{
    let ghost start = out@;
    let ghost views = string_views(parts@);
    let mut j: usize = 0;
    while j < parts.len()
        invariant
            j <= parts.len(),
            views == string_views(parts@),
            out@ == start + join_with(views.take(j as int), sep@),
        decreases parts.len() - j,
    {
        proof {
            lemma_join_step(views, sep@, j as int);
        }
        if j > 0 {
            out.append(sep);
        }
        out.append(parts[j].as_str());
        proof {
            assert(views[j as int] == parts@[j as int]@);
            assert(start + join_with(views.take(j as int), sep@) + sep@ + views[j as int] == start
                + (join_with(views.take(j as int), sep@) + sep@ + views[j as int]));
        }
        j = j + 1;
    }
    assert(views.take(parts.len() as int) == views);
}

/// The text of one filter.
pub fn filter_to_string(f: &FileFilter) -> (s: String)
    ensures
        s@ == filter_text(*f),
{
    let mut s = f.name.clone();
    s.append(" (");
    push_joined(&mut s, &f.filters, " ");
    s.append(")");
    proof {
        reveal_strlit(" (");
        reveal_strlit(" ");
        reveal_strlit(")");
        assert(" ("@ == seq![' ', '(']);
        assert(" "@ == seq![' ']);
        assert(")"@ == seq![')']);
    }
    s
}

/// The filter text handed to the native dialog: `None` when there is no filter, else each
/// filter's text, separated by two semicolons.
pub fn filters_to_string(filters: Vec<FileFilter>) -> (r: Option<String>)
    ensures
        filters@.len() == 0 ==> r.is_none(),
        filters@.len() > 0 ==> r.is_some() && r.unwrap()@ == filters_text(filters@),
{
    if filters.len() == 0 {
        return None;
    }
    let ghost texts = filters@.map_values(|f: FileFilter| filter_text(f));
    let mut out = String::new();
    let mut j: usize = 0;
    while j < filters.len()
        invariant
            j <= filters.len(),
            texts == filters@.map_values(|f: FileFilter| filter_text(f)),
            out@ == join_with(texts.take(j as int), seq![';', ';']),
        decreases filters.len() - j,
    {
        proof {
            lemma_join_step(texts, seq![';', ';'], j as int);
            reveal_strlit(";;");
        }
        if j > 0 {
            out.append(";;");
        }
        let t = filter_to_string(&filters[j]);
        out.append(t.as_str());
        j = j + 1;
    }
    assert(texts.take(filters.len() as int) == texts);
    Some(out)
}

impl AppFileDialog {
    /// The arguments of a dialog that picks files (one, several, or a name to save under): the
    /// title and the initial path as given, the filters as text.
    pub fn file_dialog_args(data: FileDialogData) -> (a: NativeFileDialogArgs)
        ensures
            a.title == data.title,
            a.initial_path == data.initial_path,
            data.filters@.len() == 0 ==> a.filter.is_none(),
            data.filters@.len() > 0 ==> a.filter.is_some() && a.filter.unwrap()@ == filters_text(
                data.filters@,
            ),
    {
        let filter = filters_to_string(data.filters);
        NativeFileDialogArgs { title: data.title, initial_path: data.initial_path, filter }
    }

    /// The arguments of a dialog that picks a folder: no filter.
    pub fn folder_dialog_args(data: FileDialogData) -> (a: NativeFileDialogArgs)
        ensures
            a.title == data.title,
            a.initial_path == data.initial_path,
            a.filter.is_none(),
    {
        NativeFileDialogArgs { title: data.title, initial_path: data.initial_path, filter: None }
    }
}

/// What a path edit picks.
#[derive(PartialEq, Eq, Structural, Clone, Copy, Debug)]
pub enum PathKind {
    OpenFile,
    SaveFile,
    Folder,
}

/// A labeled text box holding a path, with a button that opens a file dialog to pick it.
pub struct PathEdit {
    pub label: String,
    pub path: String,
    pub kind: PathKind,
    pub filters: Vec<FileFilter>,
}

/// The dialog a path edit opens: its kind and the arguments of the native dialog.
pub struct PathDialogRequest {
    pub kind: PathKind,
    pub args: NativeFileDialogArgs,
}

impl PathEdit {
    /// An empty path edit with no label, picking a file to open, without filters.
    pub fn new() -> (p: Self)
        ensures
            p.label@ == Seq::<char>::empty(),
            p.path@ == Seq::<char>::empty(),
            p.kind == PathKind::OpenFile,
            p.filters@.len() == 0,
    {
        PathEdit {
            label: String::new(),
            path: String::new(),
            kind: PathKind::OpenFile,
            filters: Vec::new(),
        }
    }

    /// The dialog the button opens: titled with the label, starting at the current path, with
    /// the filters (none for a folder).
    pub fn dialog_request(&self) -> (r: PathDialogRequest)
        ensures
            r.kind == self.kind,
            r.args.title.is_some() && r.args.title.unwrap()@ == self.label@,
            r.args.initial_path.is_some() && r.args.initial_path.unwrap()@ == self.path@,
            (self.kind == PathKind::Folder || self.filters@.len() == 0) ==> r.args.filter.is_none(),
            (self.kind != PathKind::Folder && self.filters@.len() > 0) ==> r.args.filter.is_some()
                && r.args.filter.unwrap()@ == filters_text(self.filters@),
    {
        let mut filters: Vec<FileFilter> = Vec::new();
        let mut i: usize = 0;
        while i < self.filters.len()
            invariant
                i <= self.filters.len(),
                filters@.len() == i,
                forall|k: int|
                    0 <= k < i ==> filter_text(#[trigger] filters@[k]) == filter_text(
                        self.filters@[k],
                    ),
            decreases self.filters.len() - i,
        {
            let f = &self.filters[i];
            let mut patterns: Vec<String> = Vec::new();
            let mut j: usize = 0;
            while j < f.filters.len()
                invariant
                    j <= f.filters.len(),
                    patterns@.len() == j,
                    forall|k: int| 0 <= k < j ==> (#[trigger] patterns@[k])@ == f.filters@[k]@,
                decreases f.filters.len() - j,
            {
                patterns.push(f.filters[j].clone());
                j = j + 1;
            }
            assert(string_views(patterns@) =~= string_views(f.filters@));
            filters.push(FileFilter { name: f.name.clone(), filters: patterns });
            i = i + 1;
        }
        assert(filters@.map_values(|f: FileFilter| filter_text(f)) =~= self.filters@.map_values(
            |f: FileFilter| filter_text(f),
        ));
        let data = FileDialogData {
            title: Some(self.label.clone()),
            initial_path: Some(self.path.clone()),
            filters,
        };
        let args = match self.kind {
            PathKind::Folder => AppFileDialog::folder_dialog_args(data),
            _ => AppFileDialog::file_dialog_args(data),
        };
        PathDialogRequest { kind: self.kind, args }
    }

    /// The dialog closed: a picked path replaces the current one; a cancelled dialog leaves it.
    pub fn picked(&mut self, picked: Option<String>)
        ensures
            picked.is_some() ==> final(self).path@ == picked.unwrap()@,
            picked.is_none() ==> final(self).path@ == old(self).path@,
            final(self).label@ == old(self).label@,
            final(self).kind == old(self).kind,
            final(self).filters@ == old(self).filters@,
    {
        match picked {
            Some(p) => {
                self.path = p;
            },
            None => {},
        }
    }
}

} // verus!
