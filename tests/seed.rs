use randomart::grammar::Grammar;
use randomart::seed::{fnv1a, FNV_OFFSET};

#[test]
fn labels_hash_by_fnv1a() {
    assert_eq!(fnv1a(""), FNV_OFFSET);
    assert_eq!(fnv1a("a"), 0xaf63dc4c8601ec8c);
    assert_eq!(fnv1a("samarth kulkarni"), 16432023802618330694);
    assert_ne!(fnv1a("ab"), fnv1a("ba"));
}

#[test]
fn labelled_seed_regression() {
    let mut grammar = Grammar::default(fnv1a("samarth kulkarni"));
    let tree = grammar.gen_rule(0, 40).expect("a tree");
    let (r, g, b) = tree.extract_channels_from_triple();
    assert_eq!(r.as_str(), "Number(-0.530714766)");
    assert_eq!(g.as_str(), "Sqrt(Div(Cos(Div(Add(Exp(Sin(Mult(Cos(Number(0.327931572)), Exp(Add(Div(Y, Mult(Mix(Mult(Cos(X), X), Sqrt(Sqrt(Cos(Cos(Y)))), Add(Cos(Add(Cos(X), Mult(Number(0.174658006), Y))), Div(Cos(Sin(Y)), Mix(Sin(X), Sin(Y), Mult(Y, X), Cos(X)))), Cos(Mix(Sqrt(Cos(Number(0.965337706))), Div(Cos(X), Cos(X)), Cos(Sin(Y)), Sin(Sin(Number(0.629329066)))))), Mult(Cos(Sin(Cos(Sin(X)))), Mix(Mult(X, Cos(Exp(Number(-0.340631084)))), Sin(Mix(Mult(X, X), Cos(Y), Sqrt(Y), Sin(Number(0.274070542)))), Cos(Number(0.612744614)), Sin(Y))))), Div(Cos(Sin(Exp(Cos(Mult(X, Sin(Number(-0.302930404))))))), Cos(Mix(Sin(Exp(Mult(X, Sin(X)))), Exp(Exp(Mix(Mult(Number(0.769140566), Number(0.839271974)), Div(X, Number(0.795088668)), Sin(Y), Y))), Y, Sin(Sin(Mult(Cos(Number(0.081819738)), Sqrt(Y)))))))))))), Cos(Cos(Cos(X)))), Cos(Sin(Add(Cos(Exp(Exp(Cos(Add(Sin(Sin(Mult(Cos(Sin(X)), Sin(Div(Y, Y))))), Cos(Sin(Mix(Sqrt(Sqrt(Y)), Sqrt(Add(Number(0.75798077), Y)), Sqrt(Mix(X, Y, Number(-0.306032898), Number(0.296838262))), Add(Sin(Number(-0.365959758)), Cos(Y)))))))))), Div(Sqrt(Mult(Sin(Cos(Sin(Mult(Cos(Add(Cos(Number(0.93333283)), Cos(Number(-0.485595556)))), Cos(X))))), Cos(Mult(Mult(Mult(Div(Add(Sqrt(Y), Add(Y, Number(0.938321246))), Div(Cos(X), Div(Y, Number(-0.78028186)))), Sqrt(Sin(Mult(X, X)))), Div(Cos(Cos(Sqrt(Number(-0.8063299)))), Sin(Mult(Add(Y, X), Exp(Number(-0.001021512)))))), Mix(Div(Div(X, Mix(Exp(X), Mix(Number(-0.933929406), Number(-0.869762922), Number(0.657635748), Y), Sin(Y), Sqrt(X))), Mult(Cos(Mult(X, Y)), Sin(X))), Add(X, Sin(Sin(Div(Number(-0.884459912), Number(0.77367221))))), Div(X, Mix(Add(Cos(X), Add(Y, Y)), Cos(Mix(Number(0.508645082), X, X, X)), Cos(Cos(X)), Sqrt(Cos(Y)))), Cos(Mult(Mult(Cos(X), Div(Y, X)), Cos(Cos(Number(-0.91121219)))))))))), Add(Add(Mult(Sin(Number(0.442008572)), Sin(Sqrt(Exp(Mix(Mult(Exp(X), Cos(X)), Sin(Sin(Number(-0.045799822))), Cos(Cos(X)), Cos(Cos(Number(-0.541617378)))))))), Exp(Cos(Cos(Cos(Cos(Cos(Sin(X)))))))), Exp(X)))))))), Sin(Mult(Cos(Cos(Cos(Exp(Sqrt(Sin(Add(Sqrt(Cos(Cos(Div(Number(0.998363826), Sqrt(Add(Y, X)))))), Sqrt(Sin(Number(-0.415733634)))))))))), Mult(Cos(Div(Y, Add(Sin(Exp(Mult(Mult(Mult(Exp(Mix(Mult(Sqrt(Y), Cos(Y)), Cos(Mix(Number(-0.495537632), X, Y, X)), Mix(Cos(Y), Exp(X), Sin(Y), Sin(Y)), Sqrt(Y))), X), Cos(Sin(Sin(Cos(Sin(Y)))))), Cos(Sin(Cos(Cos(Cos(X)))))))), Add(Sqrt(Exp(Mult(Number(0.23690113), Sqrt(Sin(Sin(Cos(Cos(Number(0.082068204))))))))), Sqrt(Cos(Div(Mix(Cos(Sin(Sin(Div(Y, Number(0.469881068))))), Exp(Number(-0.446137584)), Y, Exp(Sin(Cos(Sin(Number(0.903153628)))))), Cos(Add(Cos(Cos(Cos(X))), Sqrt(Y)))))))))), Mult(Y, Cos(Mult(Div(Mult(Add(Mult(Sqrt(Div(Cos(Sin(Cos(Number(-0.125299066)))), Add(Cos(Cos(Y)), Sin(Cos(Number(-0.461930648)))))), Cos(Add(Sin(Mix(Div(X, X), Cos(Number(0.238542836)), Cos(Y), Sin(Number(-0.86792933)))), Sin(Exp(Mix(Number(-0.261199576), Y, Number(0.76215104), X)))))), Add(Cos(Cos(Sqrt(Exp(Add(Y, Y))))), Cos(Sin(Add(Sqrt(Add(Y, X)), Exp(Sqrt(Number(-0.234254594)))))))), Add(Div(Mix(Cos(Sin(Sin(Sin(Y)))), Cos(Mix(Mix(Cos(X), Sqrt(Y), Sin(Y), Exp(Y)), Cos(Y), Add(Mix(X, X, X, Y), Sqrt(Y)), Cos(Add(Number(0.061008324), Number(0.576022368))))), Sqrt(Add(Sqrt(Div(Y, Number(-0.565861004))), Mult(Mix(X, Number(-0.441922874), Number(0.19864868), Number(0.241663816)), Add(Y, Y)))), Add(Exp(Div(Sin(Y), Exp(Y))), Cos(Mix(Sqrt(Number(-0.05683852)), Cos(X), Sin(Y), Sin(Number(0.862572664)))))), Cos(Div(Cos(Mix(Cos(X), Cos(Y), Mult(Y, Y), Sin(Y))), Mult(Div(Number(-0.688666206), Sin(X)), Sqrt(Cos(Number(-0.291619978))))))), Sin(Exp(Sin(Exp(Cos(Add(Number(-0.2886457), X)))))))), Sin(Cos(Div(Sqrt(Sin(Sin(Add(Mult(Y, Y), Div(Y, Number(0.783174036)))))), Exp(Sin(Mix(Sqrt(Sin(Y)), Cos(Sin(X)), Exp(Sin(Number(-0.086006434))), Sin(Div(Number(0.446172562), Y))))))))), Cos(Sin(Sin(Add(Cos(Sin(Sin(Exp(Sin(X))))), Mult(Add(Cos(Cos(Mix(Number(-0.014503006), Y, X, X))), Sin(Cos(Add(X, Y)))), Number(-0.599493426))))))))))))))");
    assert_eq!(b.as_str(), "Div(Sqrt(Div(Y, Mult(Sin(Mult(Sqrt(Div(Sin(Sin(Sin(Exp(Mult(Cos(Add(Sin(Add(Number(0.074851246), Number(-0.282296754))), Sqrt(Exp(Y)))), Mix(Cos(Mix(Div(Y, X), Sin(Number(0.554669132)), Exp(Number(0.431773026)), Sqrt(Y))), X, Cos(Sqrt(Sin(X))), Exp(Number(0.142486162)))))))), X)), Cos(Exp(Sqrt(Sin(Cos(Div(Y, Exp(Add(Sin(Sin(Sqrt(Number(0.450542546)))), Exp(Exp(Sin(Number(0.21090483)))))))))))))), Sin(Cos(X))))), Sin(Mult(Div(Sin(Div(Y, Sqrt(Mix(Div(Exp(Sin(Sin(Sin(Mix(Add(Cos(Cos(X)), Mix(Div(Y, Number(0.200952758)), Sin(Y), Cos(Number(0.034459934)), Sin(Number(0.87030892)))), Mult(Sin(Sin(X)), Y), Cos(Mix(Sin(Y), Add(X, Y), Div(Y, X), Cos(X))), Add(Sqrt(Sin(Number(-0.00207413))), Cos(Cos(Number(-0.087359654))))))))), Sqrt(Sqrt(Add(Cos(Add(Sin(Sin(Cos(X))), Cos(Sin(Cos(Number(-0.14294269)))))), Mix(Cos(Cos(Sin(Cos(Number(-0.44373985))))), Sin(Exp(Cos(Cos(Number(0.304362038))))), X, Cos(Cos(Sqrt(Cos(Number(-0.897982762)))))))))), Sin(Cos(Mix(Sin(Sqrt(Cos(Sin(Cos(Sin(Y)))))), Div(Add(Sqrt(Sin(Sin(Mult(X, Y)))), Cos(Cos(Sqrt(Sin(Number(-0.234141)))))), Cos(Sqrt(Y))), Cos(Sin(Y)), Add(Y, Mix(Cos(Cos(Cos(Mult(X, X)))), Exp(Div(X, Exp(Div(Number(-0.055299876), Y)))), Exp(Sin(Exp(Mult(X, X)))), Cos(Exp(Sin(Mult(Y, Y))))))))), Sin(Cos(Cos(Mult(Cos(Add(Add(Sqrt(Sin(Y)), Add(Cos(Number(0.348895474)), Mix(X, X, Number(0.277621572), Number(-0.490144028)))), Sin(Sin(Cos(Number(-0.175969948)))))), Sqrt(Sin(Sin(Cos(Cos(X))))))))), Exp(Cos(Div(Div(Mix(Sin(Mix(Sin(Div(Number(0.56377325), Number(0.930161176))), Sqrt(Mult(Y, Y)), Sqrt(Exp(Y)), Add(Mix(X, Number(-0.993039966), Y, Number(-0.670777126)), Mult(Y, X)))), Exp(Sin(Sin(Sin(X)))), Sin(X), X), Mix(Cos(Sin(X)), Exp(Sin(Mult(Sin(Y), Cos(Y)))), Sin(Mix(Cos(Mix(Y, Y, X, X)), Sin(Add(Y, Number(0.773006136))), Cos(Exp(Y)), Exp(Add(X, Number(0.183470802))))), Exp(Mult(Add(Y, Div(Y, X)), X)))), X))))))), Add(Exp(Cos(Add(Cos(Sin(Sin(Y))), Number(0.123739254)))), Add(Div(Sin(Cos(Div(Mix(Mult(Exp(Mult(Cos(Mix(Cos(Number(-0.474880036)), Sin(Y), Sin(Number(-0.73951084)), Mult(Number(-0.56505994), Number(0.085366136)))), Cos(Add(Exp(Y), Mult(Number(-0.154737706), X))))), X), Cos(Cos(Cos(Mult(Exp(Cos(Y)), Add(Div(X, Y), Cos(X)))))), Mult(Exp(Add(Sqrt(Sin(Add(Y, Y))), Sin(Exp(Cos(Number(-0.49301076)))))), Mix(Add(Cos(Sin(Y)), Div(Div(Sin(Y), Sin(X)), Sin(Mix(Y, Number(-0.876770514), Y, Y)))), Sqrt(Sin(Div(Sin(Number(0.28861827)), Div(X, X)))), Mult(Sin(Sin(Sin(X))), Exp(Mix(Exp(Number(-0.594550906)), Sqrt(Y), Cos(Number(0.08363843)), Sin(X)))), Sin(Sin(Sin(Sin(X)))))), Sin(Exp(Mult(Cos(Sin(Cos(X))), Add(Exp(Div(Number(0.421850484), Y)), Cos(Cos(Number(-0.470928984)))))))), Sin(Sqrt(Sin(Mix(Y, Exp(Sin(Cos(Y))), Cos(Mix(Sqrt(Y), Sin(Number(-0.685336368)), Cos(Number(-0.7917588)), Sin(Y))), Sin(Cos(Exp(X)))))))))), Div(Sin(Cos(Add(Sqrt(Cos(Div(Sqrt(Cos(Sin(Y))), Sin(Sin(Sin(X)))))), Sin(Cos(Sin(Cos(Cos(Cos(Y))))))))), Mix(Mult(X, Div(Number(0.254567422), Cos(Sin(Sin(Mix(Y, Sin(Mix(Number(0.537479078), X, X, X)), Cos(Sin(Number(-0.826225844))), Mult(Exp(Y), Mix(X, Y, X, Number(-0.247652706))))))))), Sqrt(Mult(Sin(Sqrt(Div(Cos(Sin(Mix(X, Y, Number(-0.18800307), Number(0.9732836)))), Cos(Add(Cos(Y), Sqrt(Y)))))), Exp(Cos(Sin(X))))), Sin(Mult(Number(-0.923291656), Sqrt(Exp(Sqrt(Cos(Cos(Y))))))), Add(Number(0.799058152), Add(Sin(Sin(Sin(Mix(Sin(Cos(Number(0.85860558))), Add(Sin(X), Add(Number(0.138065706), Number(0.066298268))), Mix(Exp(X), Add(Y, Number(-0.559156728)), Sqrt(Number(0.717921266)), Number(0.575811914)), Mult(Mult(Y, X), Sin(X)))))), Sin(Cos(Add(Cos(Div(Cos(Number(-0.791141898)), Cos(Y))), Exp(Sqrt(Cos(X))))))))))), Mix(Exp(Cos(Cos(Cos(Cos(Exp(Cos(Sin(Cos(Sqrt(Number(-0.116524282))))))))))), Sin(Cos(Sqrt(Sqrt(Sin(Sqrt(Cos(Sqrt(Cos(Sin(X)))))))))), Sqrt(Number(0.952507334)), Exp(Sin(Exp(Sin(Sin(Div(X, Sin(Sin(Cos(Add(Number(0.808097754), Y)))))))))))))), Sin(Exp(Cos(Cos(Mult(Sin(Sin(X)), Sin(Sin(Cos(Sqrt(Cos(Div(Cos(Cos(Mult(X, Number(-0.976071122)))), Div(Mix(Div(Number(0.180797276), Number(0.240183954)), Sin(X), Add(X, X), Cos(X)), Div(Add(X, X), Div(Y, Number(0.930064516))))))))))))))))))");
}
