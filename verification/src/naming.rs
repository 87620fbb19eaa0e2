//! The names that go with a provider trait: of the provider itself, of the
//! module, type and variables that hold its implementation, of the accessor
//! of each probe, and of the files of its native part.
use heck::ShoutySnakeCase;
use heck::SnakeCase;
use vstd::prelude::*;

verus! {

/// The snake case form of a text, as `heck` computes it: the words of the
/// text in lower case, joined by underscores.
pub uninterp spec fn snake_case(text: Seq<char>) -> Seq<char>;

/// The shouty snake case form of a text, as `heck` computes it: the words of
/// the text in upper case, joined by underscores.
pub uninterp spec fn shouty_snake_case(text: Seq<char>) -> Seq<char>;

/// Calls `heck::SnakeCase::to_snake_case` on a `str`.  The result is a
/// function of the text alone; it is named, not spelled out.
#[verifier::external_body]
fn to_snake_case(text: &str) -> (converted: String)
    ensures
        converted@ == snake_case(text@),
{
    text.to_snake_case()
}

/// Calls `heck::ShoutySnakeCase::to_shouty_snake_case` on a `str`.  The
/// result is a function of the text alone; it is named, not spelled out.
#[verifier::external_body]
fn to_shouty_snake_case(text: &str) -> (converted: String)
    ensures
        converted@ == shouty_snake_case(text@),
{
    text.to_shouty_snake_case()
}

/// `first` followed by `second`.
pub fn join(first: &str, second: &str) -> (joined: String)
    ensures
        joined@ == first@ + second@,
{
    String::from_str(first).concat(second)
}

/// `first`, `second` and `third` in a row.
pub fn join3(first: &str, second: &str, third: &str) -> (joined: String)
    ensures
        joined@ == first@ + second@ + third@,
{
    String::from_str(first).concat(second).concat(third)
}

/// The name of the provider that a trait called `trait_name` declares.
pub open spec fn provider_name(trait_name: Seq<char>) -> Seq<char> {
    snake_case(trait_name)
}

/// The name of the module that holds the implementation of the provider.
pub open spec fn provider_impl_mod_name(trait_name: Seq<char>) -> Seq<char> {
    "__"@ + snake_case(trait_name + "Provider"@)
}

/// The name of the type that holds the probes of the provider.
pub open spec fn provider_impl_struct_type_name(trait_name: Seq<char>) -> Seq<char> {
    trait_name + "ProviderImpl"@
}

/// The name of the variable that holds the one value of that type.
pub open spec fn provider_impl_struct_var_name(trait_name: Seq<char>) -> Seq<char> {
    shouty_snake_case(trait_name + "ProviderImpl"@)
}

/// The name of the variable that holds the backend's provider.
pub open spec fn provider_instance_var_name(trait_name: Seq<char>) -> Seq<char> {
    shouty_snake_case(trait_name + "Provider"@)
}

/// The name of the accessor of the probe called `probe`.
pub open spec fn probe_accessor_name(probe: Seq<char>) -> Seq<char> {
    "get_"@ + probe + "_probe"@
}

/// The name of the provider that a trait called `trait_name` declares: the
/// snake case form of the trait's name.
pub fn get_provider_name(trait_name: &str) -> (name: String)
    ensures
        name@ == provider_name(trait_name@),
{
    to_snake_case(trait_name)
}

/// Marks a snake case name as one of the library's own by two leading
/// underscores.
pub fn hidden_mod_name(snake: &str) -> (name: String)
    ensures
        name@ == "__"@ + snake@,
{
    join("__", snake)
}

/// The name of the module that holds the implementation of the provider.
pub fn get_provider_impl_mod_name(trait_name: &str) -> (name: String)
    ensures
        name@ == provider_impl_mod_name(trait_name@),
{
    let long = join(trait_name, "Provider");
    let snake = to_snake_case(long.as_str());
    hidden_mod_name(snake.as_str())
}

/// An identifier with a suffix after it.
pub fn add_suffix_to_ident(ident: &str, suffix: &str) -> (name: String)
    ensures
        name@ == ident@ + suffix@,
{
    join(ident, suffix)
}

/// The name of the type that holds the probes of the provider, such as
/// `MyProbesProviderImpl`.
pub fn get_provider_impl_struct_type_name(trait_name: &str) -> (name: String)
    ensures
        name@ == provider_impl_struct_type_name(trait_name@),
{
    add_suffix_to_ident(trait_name, "ProviderImpl")
}

/// The name of the variable that holds the one value of that type, such as
/// `MY_PROBES_PROVIDER_IMPL`.
pub fn get_provider_impl_struct_var_name(trait_name: &str) -> (name: String)
    ensures
        name@ == provider_impl_struct_var_name(trait_name@),
{
    let long = join(trait_name, "ProviderImpl");
    to_shouty_snake_case(long.as_str())
}

/// The name of the variable that holds the backend's provider, such as
/// `MY_PROBES_PROVIDER`.
pub fn get_provider_instance_var_name(trait_name: &str) -> (name: String)
    ensures
        name@ == provider_instance_var_name(trait_name@),
{
    let long = join(trait_name, "Provider");
    to_shouty_snake_case(long.as_str())
}

/// The name of the accessor of the probe called `probe`, such as
/// `get_myprobe_probe`.
pub fn get_probe_accessor_name(probe: &str) -> (name: String)
    ensures
        name@ == probe_accessor_name(probe@),
{
    join3("get_", probe, "_probe")
}

/// The lower case hexadecimal digit of a number below sixteen.
pub open spec fn hex_digit(digit: nat) -> char {
    if digit == 0 {
        '0'
    } else if digit == 1 {
        '1'
    } else if digit == 2 {
        '2'
    } else if digit == 3 {
        '3'
    } else if digit == 4 {
        '4'
    } else if digit == 5 {
        '5'
    } else if digit == 6 {
        '6'
    } else if digit == 7 {
        '7'
    } else if digit == 8 {
        '8'
    } else if digit == 9 {
        '9'
    } else if digit == 10 {
        'a'
    } else if digit == 11 {
        'b'
    } else if digit == 12 {
        'c'
    } else if digit == 13 {
        'd'
    } else if digit == 14 {
        'e'
    } else {
        'f'
    }
}

/// A number in lower case hexadecimal digits, without leading zeros.
pub open spec fn hex(value: nat) -> Seq<char>
    decreases value,
{
    if value < 16 {
        seq![hex_digit(value)]
    } else {
        hex(value / 16).push(hex_digit(value % 16))
    }
}

fn hex_digit_text(digit: u64) -> (text: &'static str)
    requires
        digit < 16,
    ensures
        text@ == seq![hex_digit(digit as nat)],
{
    proof {
        reveal_strlit("0");
        reveal_strlit("1");
        reveal_strlit("2");
        reveal_strlit("3");
        reveal_strlit("4");
        reveal_strlit("5");
        reveal_strlit("6");
        reveal_strlit("7");
        reveal_strlit("8");
        reveal_strlit("9");
        reveal_strlit("a");
        reveal_strlit("b");
        reveal_strlit("c");
        reveal_strlit("d");
        reveal_strlit("e");
        reveal_strlit("f");
    }
    let text = if digit == 0 {
        "0"
    } else if digit == 1 {
        "1"
    } else if digit == 2 {
        "2"
    } else if digit == 3 {
        "3"
    } else if digit == 4 {
        "4"
    } else if digit == 5 {
        "5"
    } else if digit == 6 {
        "6"
    } else if digit == 7 {
        "7"
    } else if digit == 8 {
        "8"
    } else if digit == 9 {
        "9"
    } else if digit == 10 {
        "a"
    } else if digit == 11 {
        "b"
    } else if digit == 12 {
        "c"
    } else if digit == 13 {
        "d"
    } else if digit == 14 {
        "e"
    } else {
        "f"
    };
    assert(text@ =~= seq![hex_digit(digit as nat)]);
    text
}

/// Writes a number in lower case hexadecimal digits after what `out` holds.
pub fn push_hex(out: &mut String, value: u64)
    ensures
        final(out)@ == old(out)@ + hex(value as nat),
    decreases value,
{
    if value >= 16 {
        push_hex(out, value / 16);
    }
    out.append(hex_digit_text(value % 16));
    assert(final(out)@ =~= old(out)@ + hex(value as nat));
}

/// A name with a hash after it: the name, a hyphen, and the hash in lower
/// case hexadecimal digits.
pub open spec fn hashed_name(name: Seq<char>, hash: u64) -> Seq<char> {
    name + "-"@ + hex(hash as nat)
}

/// A name with a hash after it.
pub fn name_with_hash(name: &str, hash: u64) -> (hashed: String)
    ensures
        hashed@ == hashed_name(name@, hash),
{
    let mut hashed = join(name, "-");
    push_hex(&mut hashed, hash);
    hashed
}

/// The name of the source file of the native part of a provider.
pub fn native_provider_source_filename(name: &str, hash: u64) -> (file: String)
    ensures
        file@ == hashed_name(name@, hash) + ".cpp"@,
{
    name_with_hash(name, hash).concat(".cpp")
}

/// The name of the library file of the native part of a provider.
pub fn native_provider_lib_filename(name: &str, hash: u64) -> (file: String)
    ensures
        file@ == hashed_name(name@, hash) + ".a"@,
{
    name_with_hash(name, hash).concat(".a")
}

} // verus!
