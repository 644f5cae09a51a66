//! Tests for semantic analysis and IR generation.

use tilt::ast::{
    Block, Expression, FunctionDef, ImportDecl, Instruction, Program, Terminator, TopLevelItem,
    Type, TypedIdentifier, Value,
};
use tilt::ir::{BlockId, SemanticError, ValueId};
use tilt::lowering::lower_program;

fn create_test_program(items: Vec<TopLevelItem>) -> Program {
    Program { items }
}

#[test]
fn test_lower_empty_program() {
    let ast = create_test_program(vec![]);
    let result = lower_program(&ast).unwrap();
    assert_eq!(result.imports.len(), 0);
    assert_eq!(result.functions.len(), 0);
}

#[test]
fn test_lower_simple_import() {
    let import = ImportDecl {
        module: "env".to_string(),
        name: "print".to_string(),
        calling_convention: None,
        params: vec![],
        return_type: Type::Void,
    };
    let ast = create_test_program(vec![TopLevelItem::Import(import)]);
    let result = lower_program(&ast).unwrap();

    assert_eq!(result.imports.len(), 1);
    assert_eq!(result.imports[0].module, "env");
    assert_eq!(result.imports[0].name, "print");
    assert_eq!(result.imports[0].return_type, Type::Void);
}

#[test]
fn test_lower_simple_function() {
    let function = FunctionDef {
        name: "main".to_string(),
        params: vec![],
        return_type: Type::Void,
        blocks: vec![Block {
            label: "entry".to_string(),
            params: vec![],
            instructions: vec![],
            terminator: Terminator::Ret(None),
        }],
    };
    let ast = create_test_program(vec![TopLevelItem::Function(function)]);
    let result = lower_program(&ast).unwrap();

    assert_eq!(result.functions.len(), 1);
    assert_eq!(result.functions[0].name, "main");
    assert_eq!(result.functions[0].return_type, Type::Void);
    assert_eq!(result.functions[0].blocks.len(), 1);
    assert_eq!(result.functions[0].blocks[0].label, "entry");
}

#[test]
fn test_lower_function_with_call() {
    let import = ImportDecl {
        module: "env".to_string(),
        name: "getc".to_string(),
        calling_convention: None,
        params: vec![],
        return_type: Type::I32,
    };
    let function = FunctionDef {
        name: "main".to_string(),
        params: vec![],
        return_type: Type::Void,
        blocks: vec![Block {
            label: "entry".to_string(),
            params: vec![],
            instructions: vec![Instruction::Assign {
                dest: TypedIdentifier { name: "result".to_string(), ty: Type::I32 },
                expr: Expression::Call { name: "getc".to_string(), args: vec![] },
            }],
            terminator: Terminator::Ret(None),
        }],
    };
    let ast = create_test_program(vec![
        TopLevelItem::Import(import),
        TopLevelItem::Function(function),
    ]);
    let result = lower_program(&ast).unwrap();

    assert_eq!(result.functions.len(), 1);
    assert_eq!(result.functions[0].blocks[0].instructions.len(), 1);

    if let tilt::ir::Instruction::Call { dest, function, return_type, .. } =
        &result.functions[0].blocks[0].instructions[0]
    {
        assert_eq!(*dest, ValueId(0));
        assert_eq!(function, "getc");
        assert_eq!(*return_type, Type::I32);
    } else {
        panic!("Expected Call instruction");
    }
}

#[test]
fn test_lower_void_call() {
    let import = ImportDecl {
        module: "env".to_string(),
        name: "putc".to_string(),
        calling_convention: None,
        params: vec![],
        return_type: Type::Void,
    };
    let function = FunctionDef {
        name: "main".to_string(),
        params: vec![],
        return_type: Type::Void,
        blocks: vec![Block {
            label: "entry".to_string(),
            params: vec![],
            instructions: vec![Instruction::ExpressionStatement {
                expr: Expression::Call { name: "putc".to_string(), args: vec![] },
            }],
            terminator: Terminator::Ret(None),
        }],
    };
    let ast = create_test_program(vec![
        TopLevelItem::Import(import),
        TopLevelItem::Function(function),
    ]);
    let result = lower_program(&ast).unwrap();

    assert_eq!(result.functions[0].blocks[0].instructions.len(), 1);

    if let tilt::ir::Instruction::CallVoid { function, .. } =
        &result.functions[0].blocks[0].instructions[0]
    {
        assert_eq!(function, "putc");
    } else {
        panic!("Expected CallVoid instruction");
    }
}

#[test]
fn test_lower_branch_instructions() {
    let function = FunctionDef {
        name: "test".to_string(),
        params: vec![],
        return_type: Type::Void,
        blocks: vec![
            Block {
                label: "entry".to_string(),
                params: vec![],
                instructions: vec![],
                terminator: Terminator::Br { label: "exit".to_string(), args: vec![] },
            },
            Block {
                label: "exit".to_string(),
                params: vec![],
                instructions: vec![],
                terminator: Terminator::Ret(None),
            },
        ],
    };
    let ast = create_test_program(vec![TopLevelItem::Function(function)]);
    let result = lower_program(&ast).unwrap();

    assert_eq!(result.functions[0].blocks.len(), 2);

    if let tilt::ir::Terminator::Br { target, .. } = &result.functions[0].blocks[0].terminator {
        assert_eq!(*target, BlockId(1)); // Should point to second block
    } else {
        panic!("Expected Br terminator");
    }
}

#[test]
fn test_undefined_function_error() {
    let function = FunctionDef {
        name: "main".to_string(),
        params: vec![],
        return_type: Type::Void,
        blocks: vec![Block {
            label: "entry".to_string(),
            params: vec![],
            instructions: vec![Instruction::Assign {
                dest: TypedIdentifier { name: "result".to_string(), ty: Type::I32 },
                expr: Expression::Call { name: "undefined_func".to_string(), args: vec![] },
            }],
            terminator: Terminator::Ret(None),
        }],
    };
    let ast = create_test_program(vec![TopLevelItem::Function(function)]);
    let result = lower_program(&ast);

    assert!(result.is_err());
    let errors = result.unwrap_err();
    assert_eq!(errors.len(), 1);
    assert!(matches!(errors[0], SemanticError::FunctionNotFound { .. }));
}

#[test]
fn test_type_mismatch_error() {
    let import = ImportDecl {
        module: "env".to_string(),
        name: "void_func".to_string(),
        calling_convention: None,
        params: vec![],
        return_type: Type::Void,
    };
    let function = FunctionDef {
        name: "main".to_string(),
        params: vec![],
        return_type: Type::Void,
        blocks: vec![Block {
            label: "entry".to_string(),
            params: vec![],
            instructions: vec![Instruction::Assign {
                dest: TypedIdentifier { name: "result".to_string(), ty: Type::I32 },
                expr: Expression::Call { name: "void_func".to_string(), args: vec![] },
            }],
            terminator: Terminator::Ret(None),
        }],
    };
    let ast = create_test_program(vec![
        TopLevelItem::Import(import),
        TopLevelItem::Function(function),
    ]);
    let result = lower_program(&ast);

    assert!(result.is_err());
    let errors = result.unwrap_err();
    assert_eq!(errors.len(), 1);
    assert!(matches!(errors[0], SemanticError::TypeMismatch { .. }));
}

#[test]
fn test_undefined_block_error() {
    let function = FunctionDef {
        name: "test".to_string(),
        params: vec![],
        return_type: Type::Void,
        blocks: vec![Block {
            label: "entry".to_string(),
            params: vec![],
            instructions: vec![],
            terminator: Terminator::Br { label: "undefined_block".to_string(), args: vec![] },
        }],
    };
    let ast = create_test_program(vec![TopLevelItem::Function(function)]);
    let result = lower_program(&ast);

    assert!(result.is_err());
    let errors = result.unwrap_err();
    assert_eq!(errors.len(), 1);
    assert!(matches!(errors[0], SemanticError::UndefinedBlock { .. }));
}

#[test]
fn test_duplicate_function_error() {
    let func1 = FunctionDef {
        name: "duplicate".to_string(),
        params: vec![],
        return_type: Type::Void,
        blocks: vec![Block {
            label: "entry".to_string(),
            params: vec![],
            instructions: vec![],
            terminator: Terminator::Ret(None),
        }],
    };
    let func2 = FunctionDef {
        name: "duplicate".to_string(),
        params: vec![],
        return_type: Type::I32,
        blocks: vec![Block {
            label: "entry".to_string(),
            params: vec![],
            instructions: vec![],
            terminator: Terminator::Ret(None), // This will also cause a type error
        }],
    };
    let ast = create_test_program(vec![
        TopLevelItem::Function(func1),
        TopLevelItem::Function(func2),
    ]);
    let result = lower_program(&ast);

    assert!(result.is_err());
    let errors = result.unwrap_err();
    // Should have at least one duplicate definition error
    assert!(errors.iter().any(|e| matches!(e, SemanticError::DuplicateDefinition { .. })));
}

#[test]
fn test_return_type_mismatch() {
    let function = FunctionDef {
        name: "test".to_string(),
        params: vec![],
        return_type: Type::I32,
        blocks: vec![Block {
            label: "entry".to_string(),
            params: vec![],
            instructions: vec![],
            terminator: Terminator::Ret(None), // Void return for I32 function
        }],
    };
    let ast = create_test_program(vec![TopLevelItem::Function(function)]);
    let result = lower_program(&ast);

    assert!(result.is_err());
    let errors = result.unwrap_err();
    assert_eq!(errors.len(), 1);
    assert!(matches!(errors[0], SemanticError::TypeMismatch { .. }));
}

#[test]
fn test_complete_program() {
    // A more complex program with multiple functions and control flow.
    let import = ImportDecl {
        module: "env".to_string(),
        name: "print_i32".to_string(),
        calling_convention: None,
        params: vec![TypedIdentifier { name: "value".to_string(), ty: Type::I32 }],
        return_type: Type::Void,
    };

    let helper_func = FunctionDef {
        name: "add_one".to_string(),
        params: vec![TypedIdentifier { name: "x".to_string(), ty: Type::I32 }],
        return_type: Type::I32,
        blocks: vec![Block {
            label: "entry".to_string(),
            params: vec![],
            instructions: vec![],
            // This should fail: the returned variable is never defined.
            terminator: Terminator::Ret(Some(Value::Variable("undefined_var".to_string()))),
        }],
    };

    let main_func = FunctionDef {
        name: "main".to_string(),
        params: vec![],
        return_type: Type::Void,
        blocks: vec![
            Block {
                label: "entry".to_string(),
                params: vec![],
                instructions: vec![],
                terminator: Terminator::Br { label: "exit".to_string(), args: vec![] },
            },
            Block {
                label: "exit".to_string(),
                params: vec![],
                instructions: vec![],
                terminator: Terminator::Ret(None),
            },
        ],
    };

    let ast = Program {
        items: vec![
            TopLevelItem::Import(import),
            TopLevelItem::Function(helper_func),
            TopLevelItem::Function(main_func),
        ],
    };

    let result = lower_program(&ast);

    assert!(result.is_err());
    let errors = result.unwrap_err();
    assert!(errors.iter().any(|e| matches!(e, SemanticError::UndefinedIdentifier { .. })));
}
