//! The programming languages that a listing can be filtered by.

use crate::{found_in, By, Language, LanguageView};
use vstd::prelude::*;

verus! {

/// Every programming language known here: first the form of its name that stands in an
/// address, then the name it is shown under.
pub const LANGUAGES: [(&'static str, &'static str); 327] = [
    ("unknown", "Unknown languages"),
    ("1c-enterprise", "1C Enterprise"),
    ("abap", "ABAP"),
    ("actionscript", "ActionScript"),
    ("ada", "Ada"),
    ("agda", "Agda"),
    ("ags-script", "AGS Script"),
    ("al", "AL"),
    ("alloy", "Alloy"),
    ("ampl", "AMPL"),
    ("angelscript", "AngelScript"),
    ("antlr", "ANTLR"),
    ("apex", "Apex"),
    ("api-blueprint", "API Blueprint"),
    ("apl", "APL"),
    ("applescript", "AppleScript"),
    ("arc", "Arc"),
    ("asp.net", "ASP.NET"),
    ("aspectj", "AspectJ"),
    ("assembly", "Assembly"),
    ("astro", "Astro"),
    ("ats", "ATS"),
    ("autohotkey", "AutoHotkey"),
    ("autoit", "AutoIt"),
    ("awk", "Awk"),
    ("ballerina", "Ballerina"),
    ("batchfile", "Batchfile"),
    ("befunge", "Befunge"),
    ("bicep", "Bicep"),
    ("bison", "Bison"),
    ("bitbake", "BitBake"),
    ("blade", "Blade"),
    ("blitzbasic", "BlitzBasic"),
    ("boo", "Boo"),
    ("brainfuck", "Brainfuck"),
    ("brightscript", "Brightscript"),
    ("c", "C"),
    ("c%23", "C#"),
    ("c%2B%2B", "C++"),
    ("cairo", "Cairo"),
    ("ceylon", "Ceylon"),
    ("chapel", "Chapel"),
    ("cirru", "Cirru"),
    ("clarion", "Clarion"),
    ("clean", "Clean"),
    ("click", "Click"),
    ("clips", "CLIPS"),
    ("clojure", "Clojure"),
    ("cmake", "CMake"),
    ("cobol", "COBOL"),
    ("codeql", "CodeQL"),
    ("coffeescript", "CoffeeScript"),
    ("coldfusion", "ColdFusion"),
    ("common-lisp", "Common Lisp"),
    ("common-workflow-language", "Common Workflow Language"),
    ("coq", "Coq"),
    ("crystal", "Crystal"),
    ("css", "CSS"),
    ("cuda", "Cuda"),
    ("cython", "Cython"),
    ("d", "D"),
    ("dart", "Dart"),
    ("dataweave", "DataWeave"),
    ("dhall", "Dhall"),
    ("digital-command-language", "DIGITAL Command Language"),
    ("dm", "DM"),
    ("dockerfile", "Dockerfile"),
    ("dogescript", "Dogescript"),
    ("dylan", "Dylan"),
    ("e", "E"),
    ("ec", "eC"),
    ("eiffel", "Eiffel"),
    ("ejs", "EJS"),
    ("elixir", "Elixir"),
    ("elm", "Elm"),
    ("emacs-lisp", "Emacs Lisp"),
    ("emberscript", "EmberScript"),
    ("erlang", "Erlang"),
    ("f%23", "F#"),
    ("f*", "F*"),
    ("factor", "Factor"),
    ("fancy", "Fancy"),
    ("fantom", "Fantom"),
    ("faust", "Faust"),
    ("fennel", "Fennel"),
    ("fluent", "Fluent"),
    ("forth", "Forth"),
    ("fortran", "Fortran"),
    ("freemarker", "FreeMarker"),
    ("frege", "Frege"),
    ("futhark", "Futhark"),
    ("g-code", "G-code"),
    ("game-maker-language", "Game Maker Language"),
    ("gaml", "GAML"),
    ("gap", "GAP"),
    ("gdscript", "GDScript"),
    ("genie", "Genie"),
    ("gherkin", "Gherkin"),
    ("gleam", "Gleam"),
    ("glsl", "GLSL"),
    ("gnuplot", "Gnuplot"),
    ("go", "Go"),
    ("golo", "Golo"),
    ("gosu", "Gosu"),
    ("grace", "Grace"),
    ("grammatical-framework", "Grammatical Framework"),
    ("graphql", "GraphQL"),
    ("groovy", "Groovy"),
    ("hack", "Hack"),
    ("haml", "Haml"),
    ("handlebars", "Handlebars"),
    ("harbour", "Harbour"),
    ("haskell", "Haskell"),
    ("haxe", "Haxe"),
    ("hcl", "HCL"),
    ("hlsl", "HLSL"),
    ("holyc", "HolyC"),
    ("html", "HTML"),
    ("hy", "Hy"),
    ("idl", "IDL"),
    ("idris", "Idris"),
    ("inform-7", "Inform 7"),
    ("inno-setup", "Inno Setup"),
    ("io", "Io"),
    ("ioke", "Ioke"),
    ("isabelle", "Isabelle"),
    ("j", "J"),
    ("janet", "Janet"),
    ("jasmin", "Jasmin"),
    ("java", "Java"),
    ("javascript", "JavaScript"),
    ("jinja", "Jinja"),
    ("jolie", "Jolie"),
    ("json", "JSON"),
    ("jsoniq", "JSONiq"),
    ("jsonnet", "Jsonnet"),
    ("julia", "Julia"),
    ("jupyter-notebook", "Jupyter Notebook"),
    ("just", "Just"),
    ("kotlin", "Kotlin"),
    ("krl", "KRL"),
    ("labview", "LabVIEW"),
    ("lasso", "Lasso"),
    ("lean", "Lean"),
    ("less", "Less"),
    ("lex", "Lex"),
    ("lfe", "LFE"),
    ("lilypond", "LilyPond"),
    ("limbo", "Limbo"),
    ("liquid", "Liquid"),
    ("livescript", "LiveScript"),
    ("llvm", "LLVM"),
    ("logos", "Logos"),
    ("logtalk", "Logtalk"),
    ("lolcode", "LOLCODE"),
    ("lookml", "LookML"),
    ("lua", "Lua"),
    ("m", "M"),
    ("m4", "M4"),
    ("makefile", "Makefile"),
    ("mako", "Mako"),
    ("markdown", "Markdown"),
    ("mathematica", "Mathematica"),
    ("matlab", "MATLAB"),
    ("max", "Max"),
    ("mercury", "Mercury"),
    ("meson", "Meson"),
    ("minizinc", "MiniZinc"),
    ("mirah", "Mirah"),
    ("modelica", "Modelica"),
    ("modula-2", "Modula-2"),
    ("modula-3", "Modula-3"),
    ("mojo", "Mojo"),
    ("monkey", "Monkey"),
    ("moonscript", "MoonScript"),
    ("move", "Move"),
    ("mql4", "MQL4"),
    ("mql5", "MQL5"),
    ("mustache", "Mustache"),
    ("nasl", "NASL"),
    ("ncl", "NCL"),
    ("nemerle", "Nemerle"),
    ("netlogo", "NetLogo"),
    ("newlisp", "NewLisp"),
    ("nextflow", "Nextflow"),
    ("nginx", "Nginx"),
    ("nim", "Nim"),
    ("nit", "Nit"),
    ("nix", "Nix"),
    ("nsis", "NSIS"),
    ("nu", "Nu"),
    ("nunjucks", "Nunjucks"),
    ("objective-c", "Objective-C"),
    ("objective-c%2B%2B", "Objective-C++"),
    ("objective-j", "Objective-J"),
    ("ocaml", "OCaml"),
    ("odin", "Odin"),
    ("opa", "Opa"),
    ("opencl", "OpenCL"),
    ("openedge-abl", "OpenEdge ABL"),
    ("openscad", "OpenSCAD"),
    ("org", "Org"),
    ("ox", "Ox"),
    ("oz", "Oz"),
    ("pan", "Pan"),
    ("papyrus", "Papyrus"),
    ("parrot", "Parrot"),
    ("pascal", "Pascal"),
    ("pawn", "Pawn"),
    ("perl", "Perl"),
    ("php", "PHP"),
    ("piglatin", "PigLatin"),
    ("pike", "Pike"),
    ("plpgsql", "PLpgSQL"),
    ("plsql", "PLSQL"),
    ("pony", "Pony"),
    ("postscript", "PostScript"),
    ("powerbuilder", "PowerBuilder"),
    ("powershell", "PowerShell"),
    ("prisma", "Prisma"),
    ("processing", "Processing"),
    ("prolog", "Prolog"),
    ("pug", "Pug"),
    ("puppet", "Puppet"),
    ("purebasic", "PureBasic"),
    ("purescript", "PureScript"),
    ("python", "Python"),
    ("q", "q"),
    ("q%23", "Q#"),
    ("qmake", "QMake"),
    ("qml", "QML"),
    ("r", "R"),
    ("racket", "Racket"),
    ("ragel", "Ragel"),
    ("raku", "Raku"),
    ("raml", "RAML"),
    ("rascal", "Rascal"),
    ("reason", "Reason"),
    ("rebol", "Rebol"),
    ("red", "Red"),
    ("ren'py", "Ren'Py"),
    ("rescript", "ReScript"),
    ("rexx", "REXX"),
    ("ring", "Ring"),
    ("robotframework", "RobotFramework"),
    ("roff", "Roff"),
    ("rouge", "Rouge"),
    ("ruby", "Ruby"),
    ("rust", "Rust"),
    ("saltstack", "SaltStack"),
    ("sas", "SAS"),
    ("sass", "Sass"),
    ("scala", "Scala"),
    ("scheme", "Scheme"),
    ("scilab", "Scilab"),
    ("scss", "SCSS"),
    ("sed", "sed"),
    ("self", "Self"),
    ("shaderlab", "ShaderLab"),
    ("shell", "Shell"),
    ("shen", "Shen"),
    ("slim", "Slim"),
    ("smali", "Smali"),
    ("smalltalk", "Smalltalk"),
    ("smarty", "Smarty"),
    ("solidity", "Solidity"),
    ("sourcepawn", "SourcePawn"),
    ("sqf", "SQF"),
    ("sql", "SQL"),
    ("squirrel", "Squirrel"),
    ("stan", "Stan"),
    ("standard-ml", "Standard ML"),
    ("starlark", "Starlark"),
    ("stata", "Stata"),
    ("stylus", "Stylus"),
    ("supercollider", "SuperCollider"),
    ("svelte", "Svelte"),
    ("svg", "SVG"),
    ("swift", "Swift"),
    ("systemverilog", "SystemVerilog"),
    ("tcl", "Tcl"),
    ("terra", "Terra"),
    ("tex", "TeX"),
    ("thrift", "Thrift"),
    ("tla", "TLA"),
    ("toml", "TOML"),
    ("tsql", "TSQL"),
    ("turing", "Turing"),
    ("twig", "Twig"),
    ("typescript", "TypeScript"),
    ("typst", "Typst"),
    ("unified-parallel-c", "Unified Parallel C"),
    ("unrealscript", "UnrealScript"),
    ("v", "V"),
    ("vala", "Vala"),
    ("vba", "VBA"),
    ("vbscript", "VBScript"),
    ("vcl", "VCL"),
    ("verilog", "Verilog"),
    ("vhdl", "VHDL"),
    ("vim-script", "Vim Script"),
    ("visual-basic-.net", "Visual Basic .NET"),
    ("volt", "Volt"),
    ("vue", "Vue"),
    ("webassembly", "WebAssembly"),
    ("webidl", "WebIDL"),
    ("wren", "Wren"),
    ("x10", "X10"),
    ("xbase", "xBase"),
    ("xc", "XC"),
    ("xml", "XML"),
    ("xojo", "Xojo"),
    ("xproc", "XProc"),
    ("xquery", "XQuery"),
    ("xs", "XS"),
    ("xslt", "XSLT"),
    ("xtend", "Xtend"),
    ("yacc", "Yacc"),
    ("yaml", "YAML"),
    ("yara", "YARA"),
    ("zap", "ZAP"),
    ("zeek", "Zeek"),
    ("zenscript", "ZenScript"),
    ("zephir", "Zephir"),
    ("zig", "Zig"),
    ("zil", "ZIL"),
    ("zimpl", "Zimpl"),
];

/// The table of programming languages, in the order of `LANGUAGES`.
pub open spec fn language_table() -> Seq<LanguageView> {
    Language::table_of(LANGUAGES@)
}

/// Loads the table of programming languages.
pub fn get_data() -> (table: Vec<Language>)
    ensures
        table.deep_view() == language_table(),
{
    Language::load(LANGUAGES.as_slice())
}

/// Looks a programming language up, whatever the case of the letters: the first entry of
/// the table that `key` matches.
pub fn find(key: By) -> (found: Option<Language>)
    ensures
        found.deep_view() == found_in(language_table(), key@),
{
    let table = get_data();
    Language::find_in(&table, &key)
}

} // verus!
