use vstd::prelude::*;

verus! {

/// Why a plugin could not be loaded.
#[derive(Debug, Clone, Copy, PartialEq, Eq, Structural)]
pub enum InitError {
    /// The host handed over no usable function table.
    HostUnusable,
    /// The display name is empty or holds a NUL character.
    BadName,
    /// The parameter list holds an empty name.
    EmptyParamName,
    /// More parameters than a `u32` index can address.
    TooManyParams,
}

/// The pieces of `s` between commas, in order; there is always at least one.
pub open spec fn comma_pieces(s: Seq<char>) -> Seq<Seq<char>>
    decreases s.len(),
{
    if s.len() == 0 {
        seq![Seq::<char>::empty()]
    } else {
        let prev = comma_pieces(s.drop_last());
        if s.last() == ',' {
            prev.push(Seq::<char>::empty())
        } else {
            prev.update(prev.len() - 1, prev.last().push(s.last()))
        }
    }
}

/// The character sequences of a list of strings.
pub open spec fn string_views(v: Seq<String>) -> Seq<Seq<char>> {
    v.map_values(|s: String| s@)
}

/// A text that can stand in a C string: not empty, no NUL.
pub open spec fn valid_name(s: Seq<char>) -> bool {
    s.len() > 0 && !s.contains('\0')
}

/// Every piece is a usable parameter name.
pub open spec fn valid_param_names(names: Seq<Seq<char>>) -> bool {
    forall|i: int| 0 <= i < names.len() ==> #[trigger] names[i].len() > 0
}

/// Relies on `str::split(',')`: the pieces of the text between commas, in order.
#[verifier::external_body]
pub fn split_on_comma(s: &str) -> (r: Vec<String>)
    ensures
        string_views(r@) == comma_pieces(s@),
{
    s.split(',').map(|p| p.to_string()).collect()
}

/// Whether `s` holds a NUL character.
pub(crate) fn holds_nul(s: &str) -> (r: bool)
    ensures
        r == s@.contains('\0'),
{
    let mut found = false;
    for c in it: s.chars()
        invariant
            it.seq() == s@,
            found <==> exists|j: int| 0 <= j < it.index() && s@[j] == '\0',
    {
        if c == '\0' {
            found = true;
        }
    }
    found
}

/// The static configuration a plugin build is made with: a display name and
/// the ordered list of its parameter names.
pub struct PluginConfig {
    pub name: String,
    pub param_names: Vec<String>,
}

impl PluginConfig {
    pub open spec fn wf(&self) -> bool {
        &&& valid_name(self.name@)
        &&& valid_param_names(string_views(self.param_names@))
        &&& self.param_names.len() <= u32::MAX
    }

    /// Reads a display name and a comma-separated parameter list.
    pub fn new(name: &str, param_list: &str) -> (r: Result<PluginConfig, InitError>)
        ensures
            r is Ok <==> valid_name(name@) && valid_param_names(comma_pieces(param_list@))
                && comma_pieces(param_list@).len() <= u32::MAX,
            !valid_name(name@) ==> r == Err::<PluginConfig, InitError>(InitError::BadName),
            valid_name(name@) && !valid_param_names(comma_pieces(param_list@)) ==> r == Err::<
                PluginConfig,
                InitError,
            >(InitError::EmptyParamName),
            valid_name(name@) && valid_param_names(comma_pieces(param_list@)) && comma_pieces(
                param_list@,
            ).len() > u32::MAX ==> r == Err::<PluginConfig, InitError>(InitError::TooManyParams),
            r is Ok ==> r->Ok_0.wf() && r->Ok_0.name@ == name@ && string_views(
                r->Ok_0.param_names@,
            ) == comma_pieces(param_list@),
    {
        if name.is_empty() || holds_nul(name) {
            return Err(InitError::BadName);
        }
        let pieces = split_on_comma(param_list);
        let mut i: usize = 0;
        while i < pieces.len()
            invariant
                0 <= i <= pieces.len(),
                valid_name(name@),
                string_views(pieces@) == comma_pieces(param_list@),
                forall|j: int| 0 <= j < i ==> #[trigger] pieces@[j]@.len() > 0,
            decreases pieces.len() - i,
        {
            if pieces[i].as_str().is_empty() {
                assert(string_views(pieces@)[i as int] == pieces@[i as int]@);
                return Err(InitError::EmptyParamName);
            }
            i += 1;
        }
        assert(valid_param_names(string_views(pieces@)));
        if pieces.len() > u32::MAX as usize {
            return Err(InitError::TooManyParams);
        }
        Ok(PluginConfig { name: name.to_string(), param_names: pieces })
    }

    /// The number of parameters.
    pub fn param_count(&self) -> (r: u32)
        requires
            self.wf(),
        ensures
            r == self.param_names.len(),
    {
        self.param_names.len() as u32
    }
}

} // verus!
