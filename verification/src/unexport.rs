//! The declaration unexporter: export wrappers are stripped, and an exported
//! declaration stays only where the importer demands it.

use vstd::prelude::*;
use crate::ast::{
    lemma_views_push, views, Declaration, DeclarationView, DefaultDecl, DefaultDeclView, Id,
    IdView, ModuleItem, ModuleItemView, Specifier, SpecifierView,
};

verus! {

/// Why a merge was given up.
#[derive(Clone, Copy, Debug, PartialEq, Eq, Structural)]
pub enum MergeError {
    /// The registry holds no record of the dependency.
    MissingModule { id: u32 },
    /// The dependency could not be loaded for merging.
    LoadFailed { id: u32 },
    /// The dependency could not be wrapped.
    WrapFailed { id: u32 },
    /// The statement at `index` is a module declaration of a shape that must
    /// not reach the unexporter.
    UnexpectedDeclaration { index: usize },
    /// The caller brought an answer that the merge had not asked for.
    OutOfTurn { id: u32 },
}

/// Whether one specifier demands the binding `id`.
pub open spec fn demands(s: SpecifierView, id: IdView) -> bool {
    match s {
        SpecifierView::Specific { local, .. } => local == id,
        SpecifierView::Namespace { local, all } => local == id || all,
    }
}

/// Whether the importer demands the binding `id`: it requests nothing in
/// particular, or one of its specifiers is bound to `id`, or a namespace
/// specifier subsumes all.
pub open spec fn is_demanded(exports: Seq<SpecifierView>, id: IdView) -> bool {
    exports.len() == 0 || exists|k: int| 0 <= k < exports.len() && demands(#[trigger] exports[k], id)
}

/// Whether an exported declaration stays. A class or function stays where its
/// name is demanded, a variable statement only where nothing in particular is
/// requested; a declaration that binds no value always stays.
pub open spec fn stays(d: DeclarationView, exports: Seq<SpecifierView>) -> bool {
    match d {
        DeclarationView::Class { ident, .. } => is_demanded(exports, ident.id),
        DeclarationView::Fn { ident, .. } => is_demanded(exports, ident.id),
        DeclarationView::Var(_) => exports.len() == 0,
        DeclarationView::Const(_) => exports.len() == 0,
        DeclarationView::TsInterface(_) => true,
        DeclarationView::Other(_) => true,
    }
}

/// The plain declaration that a default-exported declaration becomes, where it
/// has a name or is an interface; otherwise the empty statement.
pub open spec fn unexport_default(d: DefaultDeclView) -> ModuleItemView {
    match d {
        DefaultDeclView::Class { ident: Some(ident), class } => ModuleItemView::Decl(
            DeclarationView::Class { ident, declare: false, class },
        ),
        DefaultDeclView::Fn { ident: Some(ident), function } => ModuleItemView::Decl(
            DeclarationView::Fn { ident, declare: false, function },
        ),
        DefaultDeclView::TsInterface(decl) => ModuleItemView::Decl(
            DeclarationView::TsInterface(decl),
        ),
        _ => ModuleItemView::Empty,
    }
}

/// Whether a statement is one the unexporter handles: anything but a module
/// declaration of an unsupported shape.
pub open spec fn expected(item: ModuleItemView) -> bool {
    !(item is Unsupported)
}

/// What the unexporter makes of one statement that it handles.
///
/// An exported declaration becomes the plain declaration where it stays, the
/// empty statement where it does not. A default-exported declaration becomes
/// a plain one as `unexport_default` says. `export *`, `export default <expr>`
/// and `export { .. }` become the empty statement. Imports and statements are
/// unchanged.
pub open spec fn unexport_item(item: ModuleItemView, exports: Seq<SpecifierView>) -> ModuleItemView {
    match item {
        ModuleItemView::ExportDecl(d) => if stays(d, exports) {
            ModuleItemView::Decl(d)
        } else {
            ModuleItemView::Empty
        },
        ModuleItemView::ExportDefaultDecl(d) => unexport_default(d),
        ModuleItemView::ExportAll(_) => ModuleItemView::Empty,
        ModuleItemView::ExportDefaultExpr(_) => ModuleItemView::Empty,
        ModuleItemView::ExportNamed(_) => ModuleItemView::Empty,
        _ => item,
    }
}

/// `unexport_item` for a fixed specifier list.
pub open spec fn unexport_with(exports: Seq<SpecifierView>) -> spec_fn(ModuleItemView) -> ModuleItemView {
    |item: ModuleItemView| unexport_item(item, exports)
}

/// The unexported body: statement by statement, in place.
pub open spec fn unexport(body: Seq<ModuleItemView>, exports: Seq<SpecifierView>) -> Seq<
    ModuleItemView,
> {
    body.map_values(unexport_with(exports))
}

/// Whether every statement of `body` is one the unexporter handles.
pub open spec fn all_expected(body: Seq<ModuleItemView>) -> bool {
    forall|k: int| 0 <= k < body.len() ==> expected(#[trigger] body[k])
}

/// Whether `index` is the place of the first statement of `body` that the
/// unexporter does not handle.
pub open spec fn first_unexpected(body: Seq<ModuleItemView>, index: int) -> bool {
    &&& 0 <= index < body.len()
    &&& !expected(body[index])
    &&& all_expected(body.take(index))
}

/// Strips export wrappers from a dependency's declarations, holding the list of
/// bindings that the importer requests.
pub struct DepUnexporter<'a> {
    pub exports: &'a Vec<Specifier>,
}

impl<'a> DepUnexporter<'a> {
    /// Whether the importer demands the binding `id`.
    pub fn is_exported(&self, id: &Id) -> (r: bool)
        ensures
            r == is_demanded(views(self.exports@), id@),
    {
        let ghost specs = views(self.exports@);
        if self.exports.len() == 0 {
            return true;
        }
        let mut k: usize = 0;
        while k < self.exports.len()
            invariant
                k <= self.exports.len(),
                specs == views(self.exports@),
                forall|j: int| 0 <= j < k ==> !demands(#[trigger] specs[j], id@),
            decreases self.exports.len() - k,
        {
            let hit = match &self.exports[k] {
                Specifier::Specific { local, .. } => local.same(id),
                Specifier::Namespace { local, all } => local.same(id) || *all,
            };
            proof {
                assert(specs[k as int] == self.exports@[k as int]@);
                assert(hit == demands(specs[k as int], id@));
            }
            if hit {
                return true;
            }
            k = k + 1;
        }
        false
    }

    /// Whether an exported declaration stays.
    fn keeps(&self, decl: &Declaration) -> (r: bool)
        ensures
            r == stays(decl@, views(self.exports@)),
    {
        match decl {
            Declaration::Class { ident, .. } => self.is_exported(&ident.id),
            Declaration::Fn { ident, .. } => self.is_exported(&ident.id),
            Declaration::Var(_) => self.exports.len() == 0,
            Declaration::Const(_) => self.exports.len() == 0,
            Declaration::TsInterface(_) => true,
            Declaration::Other(_) => true,
        }
    }

    /// Strips the export wrapper from one statement. A module declaration of an
    /// unsupported shape is handed back as the error.
    pub fn fold_module_item(&self, item: ModuleItem) -> (r: Result<ModuleItem, ModuleItem>)
        ensures
            expected(item@) ==> r is Ok && r->Ok_0@ == unexport_item(
                item@,
                views(self.exports@),
            ),
            !expected(item@) ==> r is Err && r->Err_0@ == item@,
    {
        match item {
            ModuleItem::ExportDecl(decl) => {
                if self.keeps(&decl) {
                    Ok(ModuleItem::Decl(decl))
                } else {
                    Ok(ModuleItem::Empty)
                }
            },
            ModuleItem::ExportDefaultDecl(decl) => {
                match decl {
                    DefaultDecl::Class { ident: Some(ident), class } => Ok(
                        ModuleItem::Decl(Declaration::Class { ident, declare: false, class }),
                    ),
                    DefaultDecl::Fn { ident: Some(ident), function } => Ok(
                        ModuleItem::Decl(Declaration::Fn { ident, declare: false, function }),
                    ),
                    DefaultDecl::TsInterface(decl) => Ok(
                        ModuleItem::Decl(Declaration::TsInterface(decl)),
                    ),
                    _ => Ok(ModuleItem::Empty),
                }
            },
            ModuleItem::ExportAll(_) => Ok(ModuleItem::Empty),
            ModuleItem::ExportDefaultExpr(_) => Ok(ModuleItem::Empty),
            ModuleItem::ExportNamed(_) => Ok(ModuleItem::Empty),
            ModuleItem::Unsupported(decl) => Err(ModuleItem::Unsupported(decl)),
            other => Ok(other),
        }
    }

    /// Strips the export wrappers from every statement of `body`.
    ///
    /// Fails exactly when `body` holds a module declaration of an unsupported
    /// shape, and then names the place of the first one.
    pub fn fold_module(&self, body: Vec<ModuleItem>) -> (r: Result<Vec<ModuleItem>, MergeError>)
        ensures
            all_expected(views(body@)) ==> r is Ok && views(r->Ok_0@) == unexport(
                views(body@),
                views(self.exports@),
            ),
            !all_expected(views(body@)) ==> (r matches Err(
                MergeError::UnexpectedDeclaration { index },
            ) && first_unexpected(views(body@), index as int)),
    {
        let ghost src = views(body@);
        let ghost all = unexport(src, views(self.exports@));
        let mut out: Vec<ModuleItem> = Vec::new();
        proof {
            assert(views(out@) =~= all.take(0));
        }
        for item in it: body.into_iter()
            invariant
                src == views(it.seq()),
                all == unexport(src, views(self.exports@)),
                views(out@) == all.take(it.index()),
                out@.len() == it.index(),
                all_expected(src.take(it.index())),
        {
            let ghost k = it.index();
            proof {
                assert(src[k] == item@);
            }
            match self.fold_module_item(item) {
                Ok(new) => {
                    proof {
                        lemma_views_push(out@, new);
                        assert(all[k] == unexport_item(src[k], views(self.exports@)));
                        assert(all.take(k + 1) =~= all.take(k).push(all[k]));
                        assert forall|j: int| 0 <= j < k + 1 implies expected(
                            #[trigger] src.take(k + 1)[j],
                        ) by {
                            if j < k {
                                assert(src.take(k + 1)[j] == src.take(k)[j]);
                            }
                        }
                    }
                    out.push(new);
                },
                Err(_) => {
                    return Err(MergeError::UnexpectedDeclaration { index: out.len() });
                },
            }
        }
        proof {
            assert(src.take(src.len() as int) =~= src);
            assert(all.take(all.len() as int) =~= all);
        }
        Ok(out)
    }
}

} // verus!
